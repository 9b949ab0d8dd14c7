//! The compute budget of one invocation.

use vstd::prelude::*;

verus! {

/// What an invocation has spent when its register went from `before` to a
/// reading of `after`. A reading above `before` spends nothing.
pub open spec fn spent(before: u64, after: u64) -> nat {
    if after <= before {
        (before - after) as nat
    } else {
        0
    }
}

/// What a reading of the engine's counter counts as: a reading that could
/// not be taken counts as an empty counter.
pub open spec fn reading_of(fuel: Option<u64>) -> u64 {
    match fuel {
        Some(left) => left,
        None => 0,
    }
}

/// What a reading of the engine's counter counts as.
pub fn fuel_reading(fuel: Option<u64>) -> (left: u64)
    ensures
        left == reading_of(fuel),
{
    match fuel {
        Some(left) => left,
        None => 0,
    }
}

/// The budget register of one invocation: how much it was given and how much
/// of that is left. The register only ever moves down.
#[derive(Clone, Copy, Debug)]
pub struct ExecutionLimits {
    initial: u64,
    remaining: u64,
}

impl ExecutionLimits {
    /// The register never holds more than it was given.
    #[verifier::type_invariant]
    pub closed spec fn wf(&self) -> bool {
        self.remaining <= self.initial
    }

    /// The budget the register was created with.
    pub closed spec fn spec_initial(&self) -> u64 {
        self.initial
    }

    /// What is left of the budget.
    pub closed spec fn spec_remaining(&self) -> u64 {
        self.remaining
    }

    /// What has been spent so far.
    pub open spec fn spec_consumed(&self) -> nat {
        spent(self.spec_initial(), self.spec_remaining())
    }

    /// A full register holding `budget`.
    pub fn new(budget: u64) -> (limits: Self)
        ensures
            limits.wf(),
            limits.spec_initial() == budget,
            limits.spec_remaining() == budget,
    {
        ExecutionLimits { initial: budget, remaining: budget }
    }

    #[verifier::when_used_as_spec(spec_initial)]
    pub fn initial(&self) -> (budget: u64)
        ensures
            budget == self.spec_initial(),
    {
        self.initial
    }

    #[verifier::when_used_as_spec(spec_remaining)]
    pub fn remaining(&self) -> (left: u64)
        ensures
            left == self.spec_remaining(),
            left <= self.spec_initial(),
    {
        proof {
            use_type_invariant(self);
        }
        self.remaining
    }

    /// What has been spent so far: never more than the register was given.
    pub fn consumed(&self) -> (used: u64)
        ensures
            used == self.spec_consumed(),
            used == self.spec_initial() - self.spec_remaining(),
            used <= self.spec_initial(),
    {
        proof {
            use_type_invariant(self);
        }
        self.initial - self.remaining
    }

    /// Whether the register has reached zero.
    pub fn is_exhausted(&self) -> (empty: bool)
        ensures
            empty == (self.spec_remaining() == 0),
    {
        self.remaining == 0
    }

    /// Takes a reading of the engine's counter into the register and returns
    /// what was spent since the last one. A reading above the register leaves
    /// it as it is.
    pub fn observe(&mut self, reading: u64) -> (used: u64)
        ensures
            final(self).wf(),
            final(self).spec_initial() == old(self).spec_initial(),
            final(self).spec_remaining() == if reading <= old(self).spec_remaining() {
                reading
            } else {
                old(self).spec_remaining()
            },
            used == spent(old(self).spec_remaining(), reading),
            used <= old(self).spec_remaining() <= old(self).spec_initial(),
            final(self).spec_consumed() == old(self).spec_consumed() + used,
            final(self).spec_consumed() <= final(self).spec_initial(),
    {
        proof {
            use_type_invariant(&*self);
        }
        if reading <= self.remaining {
            let used: u64 = self.remaining - reading;
            self.remaining = reading;
            used
        } else {
            0
        }
    }

    /// Empties the register and returns what was left in it.
    pub fn exhaust(&mut self) -> (used: u64)
        ensures
            final(self).wf(),
            final(self).spec_initial() == old(self).spec_initial(),
            final(self).spec_remaining() == 0,
            used == old(self).spec_remaining(),
            used <= old(self).spec_initial(),
            final(self).spec_consumed() == final(self).spec_initial(),
    {
        proof {
            use_type_invariant(&*self);
        }
        let used: u64 = self.remaining;
        self.remaining = 0;
        used
    }
}

/// What is spent never exceeds what there was to spend.
pub proof fn lemma_spent_bounded(before: u64, after: u64)
    ensures
        spent(before, after) <= before,
{
}

/// The more work a guest has done, the lower the reading and the more it has
/// spent: spending never decreases with work.
pub proof fn lemma_spent_monotone(before: u64, lighter: u64, heavier: u64)
    requires
        heavier <= lighter,
    ensures
        spent(before, lighter) <= spent(before, heavier),
{
}

} // verus!
