//! How an invocation can end, and what the caller is told.

use vstd::prelude::*;

verus! {

/// The terminal classification of one invocation.
#[derive(Clone, Copy, Debug, PartialEq, Eq, Structural)]
pub enum Outcome {
    /// The entry point returned success.
    Success,
    /// The entry point itself reported failure.
    GuestReportedFailure,
    /// The budget register reached zero before the entry point returned.
    BudgetExhausted,
    /// The engine stopped the guest for violating the sandbox.
    HostTrap,
}

/// How the engine's call of the entry point came back.
#[derive(Clone, Copy, Debug, PartialEq, Eq, Structural)]
pub enum Completion {
    /// The entry point returned, with success or with failure.
    Returned { success: bool },
    /// The guest ended itself with a process-style code.
    Exited { code: i32 },
    /// The engine stopped the guest because its budget ran out.
    OutOfFuel,
    /// The engine stopped the guest for any other reason.
    Trapped,
}

/// The outcome that a completion stands for. Only the guest's own word makes
/// a success.
pub open spec fn classify(completion: Completion) -> Outcome {
    match completion {
        Completion::Returned { success } => if success {
            Outcome::Success
        } else {
            Outcome::GuestReportedFailure
        },
        Completion::Exited { code } => if code == 0 {
            Outcome::Success
        } else {
            Outcome::GuestReportedFailure
        },
        Completion::OutOfFuel => Outcome::BudgetExhausted,
        Completion::Trapped => Outcome::HostTrap,
    }
}

/// The process-style code of an outcome.
pub open spec fn exit_code_of(outcome: Outcome) -> i32 {
    match outcome {
        Outcome::Success => 0,
        Outcome::GuestReportedFailure => 1,
        Outcome::BudgetExhausted => 2,
        Outcome::HostTrap => 3,
    }
}

/// The kinds of failure that a caller can be told of.
#[derive(Clone, Copy, Debug, PartialEq, Eq, Structural)]
pub enum FailureKind {
    /// The capabilities could not be set up.
    Configuration,
    /// The module could not be loaded.
    Load,
    /// The guest ran out of budget.
    BudgetExhausted,
    /// The guest violated the sandbox.
    HostTrap,
    /// The guest reported failure itself.
    GuestReported,
}

/// The process-style code of a failure of each kind: never 0, and no two
/// alike.
pub open spec fn failure_code(kind: FailureKind) -> i32 {
    match kind {
        FailureKind::GuestReported => 1,
        FailureKind::BudgetExhausted => 2,
        FailureKind::HostTrap => 3,
        FailureKind::Configuration => 4,
        FailureKind::Load => 5,
    }
}

/// What a caller can do about a failure.
#[derive(Clone, Copy, Debug, PartialEq, Eq, Structural)]
pub enum Recovery {
    /// Correct the configuration and start over.
    Reconfigure,
    /// Give the module up: it is malformed, defective or hostile.
    DiscardModule,
    /// Invoke again with a larger budget.
    RaiseBudget,
    /// Invoke again with another input.
    ChangeInput,
}

/// The way out of each kind of failure.
pub open spec fn recovery_of(kind: FailureKind) -> Recovery {
    match kind {
        FailureKind::Configuration => Recovery::Reconfigure,
        FailureKind::Load => Recovery::DiscardModule,
        FailureKind::BudgetExhausted => Recovery::RaiseBudget,
        FailureKind::HostTrap => Recovery::DiscardModule,
        FailureKind::GuestReported => Recovery::ChangeInput,
    }
}

/// The kind of failure that an outcome is, if it is one.
pub open spec fn failure_of(outcome: Outcome) -> Option<FailureKind> {
    match outcome {
        Outcome::Success => None,
        Outcome::GuestReportedFailure => Some(FailureKind::GuestReported),
        Outcome::BudgetExhausted => Some(FailureKind::BudgetExhausted),
        Outcome::HostTrap => Some(FailureKind::HostTrap),
    }
}

impl Completion {
    /// The outcome that this completion stands for.
    pub fn outcome(self) -> (outcome: Outcome)
        ensures
            outcome == classify(self),
    {
        match self {
            Completion::Returned { success } => if success {
                Outcome::Success
            } else {
                Outcome::GuestReportedFailure
            },
            Completion::Exited { code } => if code == 0 {
                Outcome::Success
            } else {
                Outcome::GuestReportedFailure
            },
            Completion::OutOfFuel => Outcome::BudgetExhausted,
            Completion::Trapped => Outcome::HostTrap,
        }
    }
}

impl Outcome {
    /// Whether the guest succeeded.
    pub fn is_success(self) -> (success: bool)
        ensures
            success == (self == Outcome::Success),
            success == (exit_code_of(self) == 0),
    {
        match self {
            Outcome::Success => true,
            _ => false,
        }
    }

    /// The process-style code of this outcome: 0 for success, and a code of
    /// its own for each kind of failure.
    pub fn exit_code(self) -> (code: i32)
        ensures
            code == exit_code_of(self),
    {
        match self {
            Outcome::Success => 0,
            Outcome::GuestReportedFailure => 1,
            Outcome::BudgetExhausted => 2,
            Outcome::HostTrap => 3,
        }
    }

    /// The kind of failure that this outcome is: none for a success.
    pub fn failure(self) -> (kind: Option<FailureKind>)
        ensures
            kind == failure_of(self),
            kind is None <==> self == Outcome::Success,
    {
        match self {
            Outcome::Success => None,
            Outcome::GuestReportedFailure => Some(FailureKind::GuestReported),
            Outcome::BudgetExhausted => Some(FailureKind::BudgetExhausted),
            Outcome::HostTrap => Some(FailureKind::HostTrap),
        }
    }
}

impl FailureKind {
    /// The process-style code of a failure of this kind. A failed invocation
    /// has the code of its outcome.
    pub fn exit_code(self) -> (code: i32)
        ensures
            code == failure_code(self),
            code != 0,
    {
        match self {
            FailureKind::GuestReported => 1,
            FailureKind::BudgetExhausted => 2,
            FailureKind::HostTrap => 3,
            FailureKind::Configuration => 4,
            FailureKind::Load => 5,
        }
    }

    /// What a caller can do about a failure of this kind.
    pub fn recovery(self) -> (recovery: Recovery)
        ensures
            recovery == recovery_of(self),
    {
        match self {
            FailureKind::Configuration => Recovery::Reconfigure,
            FailureKind::Load => Recovery::DiscardModule,
            FailureKind::BudgetExhausted => Recovery::RaiseBudget,
            FailureKind::HostTrap => Recovery::DiscardModule,
            FailureKind::GuestReported => Recovery::ChangeInput,
        }
    }
}

/// Two outcomes never share an exit code, and only success has the code 0.
pub proof fn lemma_exit_codes_distinct(a: Outcome, b: Outcome)
    ensures
        exit_code_of(a) == exit_code_of(b) <==> a == b,
        exit_code_of(a) == 0 <==> a == Outcome::Success,
{
}

/// Two kinds of failure never share a code, no failure has the code 0, and
/// an outcome that is a failure has the code of its kind.
pub proof fn lemma_failure_codes(a: FailureKind, b: FailureKind, outcome: Outcome)
    ensures
        failure_code(a) == failure_code(b) <==> a == b,
        failure_code(a) != 0,
        failure_of(outcome) == Some(a) ==> exit_code_of(outcome) == failure_code(a),
{
}

/// There is no silent success: an invocation counts as a success only when
/// the guest returned success or ended itself with the code 0.
pub proof fn lemma_success_is_the_guests_word(completion: Completion)
    ensures
        classify(completion) == Outcome::Success <==> (completion == (Completion::Returned {
            success: true,
        }) || completion == (Completion::Exited { code: 0 })),
        completion == Completion::OutOfFuel <==> classify(completion) == Outcome::BudgetExhausted,
        completion == Completion::Trapped <==> classify(completion) == Outcome::HostTrap,
{
}

} // verus!
