//! One instance: a module bound to its capabilities and its budget, for
//! exactly one invocation.
//!
//! The engine does the running. An instance keeps the books: it says which
//! step may come next, takes the engine's readings and the guest's output,
//! and tells how the invocation ended.

use crate::capabilities::capability_list;
use crate::capabilities::Capabilities;
use crate::capabilities::CapabilitiesView;
use crate::capabilities::Capability;
use crate::engine::CompiledModule;
use crate::http::allows_outbound;
use crate::http::HttpContext;
use crate::limits::fuel_reading;
use crate::limits::reading_of;
use crate::limits::spent;
use crate::limits::ExecutionLimits;
use crate::outcome::classify;
use crate::outcome::exit_code_of;
use crate::outcome::Completion;
use crate::outcome::Outcome;
use crate::table::distinct_handles;
use crate::table::Bindings;
use crate::table::Handle;
use vstd::prelude::*;

verus! {

/// Where an instance is in its life.
#[derive(Clone, Copy, Debug, PartialEq, Eq, Structural)]
pub enum State {
    /// Made, with nothing bound yet.
    Created,
    /// Bound to its capabilities, with a full budget.
    Instantiated,
    /// The entry point has been called and has not come back.
    Running,
    /// The entry point came back with the guest's own verdict.
    Completed,
    /// The engine stopped the guest for violating the sandbox.
    Failed,
    /// The budget ran out before the entry point came back.
    BudgetExhausted,
}

/// Whether nothing can follow `state`.
pub open spec fn is_terminal(state: State) -> bool {
    state == State::Completed || state == State::Failed || state == State::BudgetExhausted
}

/// The state in which an invocation with this outcome ends.
pub open spec fn terminal_state(outcome: Outcome) -> State {
    match outcome {
        Outcome::Success => State::Completed,
        Outcome::GuestReportedFailure => State::Completed,
        Outcome::BudgetExhausted => State::BudgetExhausted,
        Outcome::HostTrap => State::Failed,
    }
}

/// What the call of the entry point has cost, given the register before the
/// call and what the engine said afterwards. A guest that ran out of budget
/// has spent all there was.
pub open spec fn run_cost(before: u64, completion: Completion, fuel: Option<u64>) -> nat {
    if completion == Completion::OutOfFuel {
        before as nat
    } else {
        spent(before, reading_of(fuel))
    }
}

/// What is reported of an invocation: its outcome, what the call has cost,
/// and what the guest wrote. It is fixed by what the register held before
/// the call and by what the engine handed over afterwards; the harness adds
/// nothing of its own, neither time nor chance.
pub open spec fn report_of(
    before: u64,
    completion: Completion,
    fuel: Option<u64>,
    stdout: Seq<u8>,
    stderr: Seq<u8>,
) -> ReportView {
    ReportView {
        outcome: classify(completion),
        budget_consumed: run_cost(before, completion, fuel) as u64,
        stdout,
        stderr,
    }
}

/// Two invocations that start with the same in the register and are handed
/// the same by the engine are reported alike, byte for byte. Whether the
/// engine hands over the same for the same input is the engine's.
pub proof fn lemma_same_run_same_report(
    first_before: u64,
    second_before: u64,
    first: (Completion, Option<u64>, Seq<u8>, Seq<u8>),
    second: (Completion, Option<u64>, Seq<u8>, Seq<u8>),
)
    requires
        first_before == second_before,
        first == second,
    ensures
        report_of(first_before, first.0, first.1, first.2, first.3) == report_of(
            second_before,
            second.0,
            second.1,
            second.2,
            second.3,
        ),
        report_of(first_before, first.0, first.1, first.2, first.3).stdout == first.2,
        report_of(first_before, first.0, first.1, first.2, first.3).stderr == first.3,
{
}

/// A guest that runs out of budget has spent the whole budget, provided the
/// engine's reading before the call was not below it: the call then costs
/// exactly what the instance was given. With a budget of 1 that is 1.
pub proof fn lemma_exhaustion_spends_the_budget(
    budget: u64,
    before: Option<u64>,
    after: Option<u64>,
)
    requires
        reading_of(before) >= budget,
    ensures
        spent(budget, reading_of(before)) == 0,
        run_cost(budget, Completion::OutOfFuel, after) == budget,
        classify(Completion::OutOfFuel) == Outcome::BudgetExhausted,
{
}

/// The call of the entry point never costs more than the register held
/// before it, and costs the more the lower the engine's reading is afterwards.
/// A guest that ran out of budget has spent all of it.
pub proof fn lemma_run_cost(before: u64, completion: Completion, lighter: u64, heavier: u64)
    requires
        heavier <= lighter,
    ensures
        run_cost(before, completion, Some(lighter)) <= run_cost(before, completion, Some(heavier))
            <= before,
        run_cost(before, Completion::OutOfFuel, Some(lighter)) == before,
{
}

/// However the entry point comes back, the invocation is over: the state
/// that follows is terminal. It is `Completed` exactly when the guest gave
/// its own verdict, so running out of budget and being stopped by the engine
/// are told apart from a failure that the guest reported, and from each
/// other.
pub proof fn lemma_every_completion_is_terminal(completion: Completion)
    ensures
        is_terminal(terminal_state(classify(completion))),
        terminal_state(classify(completion)) == State::Completed <==> (classify(completion)
            == Outcome::Success || classify(completion) == Outcome::GuestReportedFailure),
        terminal_state(classify(completion)) == State::BudgetExhausted <==> completion
            == Completion::OutOfFuel,
        terminal_state(classify(completion)) == State::Failed <==> completion
            == Completion::Trapped,
{
}

impl State {
    /// Whether nothing can follow this state.
    pub fn is_terminal(self) -> (terminal: bool)
        ensures
            terminal == is_terminal(self),
    {
        match self {
            State::Completed | State::Failed | State::BudgetExhausted => true,
            _ => false,
        }
    }
}

/// The steps of an instance's life.
#[derive(Clone, Copy, Debug, PartialEq, Eq, Structural)]
pub enum Transition {
    Instantiate,
    Start,
    Finish,
}

/// The state from which a step may be taken.
pub open spec fn source_of(step: Transition) -> State {
    match step {
        Transition::Instantiate => State::Created,
        Transition::Start => State::Instantiated,
        Transition::Finish => State::Running,
    }
}

/// A step that was asked for in a state from which it cannot be taken.
#[derive(Clone, Copy, Debug, PartialEq, Eq, Structural)]
pub struct LifecycleError {
    /// The state the instance was in, and still is.
    pub state: State,
    /// The step that was asked for.
    pub attempted: Transition,
}

/// What the caller is told of a finished invocation.
#[derive(Clone, Debug, PartialEq, Eq)]
pub struct Report {
    pub outcome: Outcome,
    /// The budget that the call of the entry point has used up.
    pub budget_consumed: u64,
    /// What the guest wrote to its primary output.
    pub stdout: Vec<u8>,
    /// What the guest wrote to its diagnostic output.
    pub stderr: Vec<u8>,
}

/// A report as a plain value.
pub struct ReportView {
    pub outcome: Outcome,
    pub budget_consumed: u64,
    pub stdout: Seq<u8>,
    pub stderr: Seq<u8>,
}

impl View for Report {
    type V = ReportView;

    open spec fn view(&self) -> ReportView {
        ReportView {
            outcome: self.outcome,
            budget_consumed: self.budget_consumed,
            stdout: self.stdout@,
            stderr: self.stderr@,
        }
    }
}

impl Report {
    /// The process-style code of the invocation.
    pub fn exit_code(&self) -> (code: i32)
        ensures
            code == exit_code_of(self@.outcome),
    {
        self.outcome.exit_code()
    }
}

enum Phase {
    Created,
    Instantiated,
    Running,
    Finished { report: Report },
}

/// One instance. It owns its capabilities and its budget register, shares
/// its module with others, and serves one invocation.
pub struct Instance<'m> {
    module: &'m CompiledModule,
    capabilities: Capabilities,
    http: HttpContext,
    bindings: Bindings,
    limits: ExecutionLimits,
    phase: Phase,
}

impl<'m> Instance<'m> {
    #[verifier::type_invariant]
    closed spec fn inv(&self) -> bool {
        &&& self.limits.wf()
        &&& self.bindings.spec_capabilities() == Seq::<Capability>::empty()
            || self.bindings.spec_capabilities() == self.resources()
        &&& match self.phase {
            Phase::Created => true,
            Phase::Instantiated => self.bindings.spec_capabilities() == self.resources(),
            Phase::Running => self.bindings.spec_capabilities() == self.resources(),
            Phase::Finished { report } => {
                &&& self.bindings.spec_capabilities() == self.resources()
                &&& report.budget_consumed <= self.limits.spec_initial()
                &&& report.outcome == Outcome::BudgetExhausted ==> self.limits.spec_remaining()
                    == 0
            },
        }
    }

    /// The module that this instance runs.
    pub closed spec fn spec_module(&self) -> &'m CompiledModule {
        self.module
    }

    /// The capabilities that this instance owns.
    pub closed spec fn spec_capabilities(&self) -> CapabilitiesView {
        self.capabilities@
    }

    /// The network capability of this instance.
    pub closed spec fn spec_http(&self) -> HttpContext {
        self.http
    }

    /// The resources that the capabilities of this instance stand for.
    pub open spec fn resources(&self) -> Seq<Capability> {
        capability_list(self.spec_capabilities().grants.len(), allows_outbound(self.spec_http()))
    }

    /// The resources that are registered for this instance, in order.
    pub closed spec fn registered(&self) -> Seq<Capability> {
        self.bindings.spec_capabilities()
    }

    /// The handles of the registered resources, in the same order.
    pub closed spec fn spec_handles(&self) -> Seq<Handle> {
        self.bindings.spec_handles()
    }

    /// What `handle` stands for in this instance, if anything.
    pub closed spec fn spec_resolve(&self, handle: Handle) -> Option<Capability> {
        self.bindings.spec_resolve(handle)
    }

    /// The budget register.
    pub closed spec fn spec_limits(&self) -> ExecutionLimits {
        self.limits
    }

    /// Where the instance is in its life.
    pub closed spec fn spec_state(&self) -> State {
        match self.phase {
            Phase::Created => State::Created,
            Phase::Instantiated => State::Instantiated,
            Phase::Running => State::Running,
            Phase::Finished { report } => terminal_state(report.outcome),
        }
    }

    /// The report of the invocation, once there is one.
    pub closed spec fn spec_report(&self) -> Option<ReportView> {
        match self.phase {
            Phase::Finished { report } => Some(report@),
            _ => None,
        }
    }

    /// A new instance of `module` that owns `capabilities` and `http`.
    /// Nothing is registered yet and no budget is set.
    pub fn new(module: &'m CompiledModule, capabilities: Capabilities, http: HttpContext) -> (instance:
        Self)
        ensures
            instance.spec_module() == module,
            instance.spec_capabilities() == capabilities@,
            instance.spec_http() == http,
            instance.spec_state() == State::Created,
            instance.registered() == Seq::<Capability>::empty(),
            instance.spec_report() is None,
            instance.spec_limits().spec_initial() == 0,
    {
        Instance {
            module,
            capabilities,
            http,
            bindings: Bindings::empty(),
            limits: ExecutionLimits::new(0),
            phase: Phase::Created,
        }
    }

    /// Where the instance is in its life.
    pub fn state(&self) -> (state: State)
        ensures
            state == self.spec_state(),
            is_terminal(state) <==> self.spec_report() is Some,
            state != State::Created ==> self.registered() == self.resources(),
            state == State::BudgetExhausted ==> self.spec_limits().spec_remaining() == 0,
    {
        proof {
            use_type_invariant(self);
        }
        match &self.phase {
            Phase::Created => State::Created,
            Phase::Instantiated => State::Instantiated,
            Phase::Running => State::Running,
            Phase::Finished { report } => match report.outcome {
                Outcome::Success => State::Completed,
                Outcome::GuestReportedFailure => State::Completed,
                Outcome::BudgetExhausted => State::BudgetExhausted,
                Outcome::HostTrap => State::Failed,
            },
        }
    }

    /// The module that this instance runs.
    pub fn module(&self) -> (module: &'m CompiledModule)
        ensures
            module == self.spec_module(),
    {
        self.module
    }

    /// The capabilities that this instance owns.
    pub fn capabilities(&self) -> (capabilities: &Capabilities)
        ensures
            capabilities@ == self.spec_capabilities(),
    {
        &self.capabilities
    }

    /// The network capability of this instance.
    pub fn http(&self) -> (http: HttpContext)
        ensures
            http == self.spec_http(),
    {
        self.http
    }

    /// The budget register: what was given and what is left.
    pub fn limits(&self) -> (limits: ExecutionLimits)
        ensures
            limits == self.spec_limits(),
            limits.wf(),
    {
        proof {
            use_type_invariant(self);
        }
        self.limits
    }

    /// The report of the invocation. There is none before the invocation has
    /// ended; then it holds what the guest wrote, whatever the outcome, and
    /// a budget use that is no more than the instance was given.
    pub fn report(&self) -> (report: Option<&Report>)
        ensures
            report is Some <==> is_terminal(self.spec_state()),
            match report {
                Some(r) => Some(r@) == self.spec_report() && r@.budget_consumed
                    <= self.spec_limits().spec_initial() && self.spec_state() == terminal_state(
                    r@.outcome,
                ),
                None => self.spec_report() is None,
            },
    {
        proof {
            use_type_invariant(self);
        }
        match &self.phase {
            Phase::Finished { report } => Some(report),
            _ => None,
        }
    }

    /// What the guest wrote to its primary output: readable once the
    /// invocation has ended.
    pub fn stdout(&self) -> (bytes: Option<&Vec<u8>>)
        ensures
            match bytes {
                Some(b) => self.spec_report() is Some && b@ == self.spec_report()->0.stdout,
                None => self.spec_report() is None,
            },
    {
        match &self.phase {
            Phase::Finished { report } => Some(&report.stdout),
            _ => None,
        }
    }

    /// What the guest wrote to its diagnostic output: readable once the
    /// invocation has ended.
    pub fn stderr(&self) -> (bytes: Option<&Vec<u8>>)
        ensures
            match bytes {
                Some(b) => self.spec_report() is Some && b@ == self.spec_report()->0.stderr,
                None => self.spec_report() is None,
            },
    {
        match &self.phase {
            Phase::Finished { report } => Some(&report.stderr),
            _ => None,
        }
    }

    /// The handles of the registered resources, in order: no two are the
    /// same, and each resolves to its resource.
    pub fn handles(&self) -> (handles: &Vec<Handle>)
        ensures
            handles@ == self.spec_handles(),
            handles@.len() == self.registered().len(),
            distinct_handles(handles@),
            forall|i: int|
                0 <= i < handles@.len() ==> self.spec_resolve(#[trigger] handles@[i]) == Some(
                    self.registered()[i],
                ),
    {
        self.bindings.handles()
    }

    /// What `handle` stands for in this instance. Only a handle that this
    /// instance registered resolves, and only to what was registered.
    pub fn resolve(&self, handle: Handle) -> (capability: Option<Capability>)
        ensures
            capability == self.spec_resolve(handle),
            self.spec_handles().len() == self.registered().len(),
            capability is Some ==> exists|i: int|
                0 <= i < self.spec_handles().len() && #[trigger] self.spec_handles()[i] == handle
                    && self.registered()[i] == capability->0,
    {
        let capability = self.bindings.resolve(handle);
        proof {
            if capability is Some {
                let i = choose|i: int|
                    0 <= i < self.bindings.spec_handles().len()
                        && #[trigger] self.bindings.spec_handles()[i] == handle
                        && self.bindings.spec_capabilities()[i] == capability->0;
                assert(self.spec_handles()[i] == handle);
            }
        }
        capability
    }

    /// Binds the instance: registers every resource of its capabilities and
    /// fills the budget register with `budget`. This is the step from
    /// `Created`; in any other state it is refused and changes nothing.
    pub fn instantiate(&mut self, budget: u64) -> (result: Result<(), LifecycleError>)
        ensures
            result is Ok <==> old(self).spec_state() == source_of(Transition::Instantiate),
            match result {
                Ok(()) => {
                    &&& final(self).spec_state() == State::Instantiated
                    &&& final(self).spec_limits().spec_initial() == budget
                    &&& final(self).spec_limits().spec_remaining() == budget
                    &&& final(self).registered() == final(self).resources()
                    &&& final(self).spec_capabilities() == old(self).spec_capabilities()
                    &&& final(self).spec_http() == old(self).spec_http()
                    &&& final(self).spec_module() == old(self).spec_module()
                    &&& final(self).spec_report() is None
                },
                Err(error) => {
                    &&& error == (LifecycleError {
                        state: old(self).spec_state(),
                        attempted: Transition::Instantiate,
                    })
                    &&& *final(self) == *old(self)
                },
            },
    {
        proof {
            use_type_invariant(&*self);
        }
        let state = self.state();
        if state != State::Created {
            return Err(LifecycleError { state, attempted: Transition::Instantiate });
        }
        let list = self.capabilities.resources(self.http);
        match Bindings::bind(&list) {
            Some(bindings) => {
                self.bindings = bindings;
                self.limits = ExecutionLimits::new(budget);
                self.phase = Phase::Instantiated;
            },
            None => {
                assert(false);
            },
        }
        Ok(())
    }

    /// Marks the call of the entry point, and takes the engine's reading
    /// from before the call into the register. This is the step from
    /// `Instantiated`; in any other state it is refused and changes nothing.
    pub fn start(&mut self, fuel: Option<u64>) -> (result: Result<(), LifecycleError>)
        ensures
            result is Ok <==> old(self).spec_state() == source_of(Transition::Start),
            match result {
                Ok(()) => {
                    &&& final(self).spec_state() == State::Running
                    &&& final(self).spec_limits().spec_initial() == old(
                        self,
                    ).spec_limits().spec_initial()
                    &&& final(self).spec_limits().spec_remaining() == old(
                        self,
                    ).spec_limits().spec_remaining() - spent(
                        old(self).spec_limits().spec_remaining(),
                        reading_of(fuel),
                    )
                    &&& final(self).registered() == old(self).registered()
                    &&& final(self).spec_handles() == old(self).spec_handles()
                    &&& final(self).spec_capabilities() == old(self).spec_capabilities()
                    &&& final(self).spec_http() == old(self).spec_http()
                    &&& final(self).spec_module() == old(self).spec_module()
                    &&& final(self).spec_report() is None
                },
                Err(error) => {
                    &&& error == (LifecycleError {
                        state: old(self).spec_state(),
                        attempted: Transition::Start,
                    })
                    &&& *final(self) == *old(self)
                },
            },
    {
        proof {
            use_type_invariant(&*self);
        }
        let state = self.state();
        if state != State::Instantiated {
            return Err(LifecycleError { state, attempted: Transition::Start });
        }
        let mut limits = self.limits;
        limits.observe(fuel_reading(fuel));
        self.limits = limits;
        self.phase = Phase::Running;
        Ok(())
    }

    /// Ends the invocation: classifies how the entry point came back, takes
    /// the engine's reading from after the call, and keeps what the guest
    /// wrote. This is the step from `Running`; in any other state it is
    /// refused and changes nothing.
    pub fn finish(
        &mut self,
        completion: Completion,
        fuel: Option<u64>,
        stdout: Vec<u8>,
        stderr: Vec<u8>,
    ) -> (result: Result<(), LifecycleError>)
        ensures
            result is Ok <==> old(self).spec_state() == source_of(Transition::Finish),
            match result {
                Ok(()) => {
                    &&& final(self).spec_state() == terminal_state(classify(completion))
                    &&& final(self).spec_report() == Some(
                        report_of(
                            old(self).spec_limits().spec_remaining(),
                            completion,
                            fuel,
                            stdout@,
                            stderr@,
                        ),
                    )
                    &&& final(self).spec_limits().spec_initial() == old(
                        self,
                    ).spec_limits().spec_initial()
                    &&& final(self).spec_limits().spec_remaining() == old(
                        self,
                    ).spec_limits().spec_remaining() - run_cost(
                        old(self).spec_limits().spec_remaining(),
                        completion,
                        fuel,
                    )
                    &&& final(self).registered() == old(self).registered()
                    &&& final(self).spec_handles() == old(self).spec_handles()
                    &&& final(self).spec_capabilities() == old(self).spec_capabilities()
                    &&& final(self).spec_http() == old(self).spec_http()
                    &&& final(self).spec_module() == old(self).spec_module()
                },
                Err(error) => {
                    &&& error == (LifecycleError {
                        state: old(self).spec_state(),
                        attempted: Transition::Finish,
                    })
                    &&& *final(self) == *old(self)
                },
            },
    {
        proof {
            use_type_invariant(&*self);
        }
        let state = self.state();
        if state != State::Running {
            return Err(LifecycleError { state, attempted: Transition::Finish });
        }
        let mut limits = self.limits;
        let budget_consumed = match completion {
            Completion::OutOfFuel => limits.exhaust(),
            _ => limits.observe(fuel_reading(fuel)),
        };
        let report = Report { outcome: completion.outcome(), budget_consumed, stdout, stderr };
        self.limits = limits;
        self.phase = Phase::Finished { report };
        Ok(())
    }

    /// Ends the life of the instance: releases every handle it registered,
    /// each once, and returns what they stood for in order of registration.
    /// This may be done in any state; from `Instantiated` on, what is
    /// released is every resource of the instance.
    pub fn destroy(self) -> (released: Vec<Capability>)
        ensures
            released@ == self.registered(),
            self.spec_state() != State::Created ==> released@ == self.resources(),
    {
        proof {
            use_type_invariant(&self);
        }
        let Instance { bindings, .. } = self;
        bindings.release_all()
    }
}

} // verus!
