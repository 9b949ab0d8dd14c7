use ai_ark::capabilities::{Capabilities, Capability, DirPerms, FilePerms, HostContextBuilder};
use ai_ark::engine::{CompiledModule, ExecutionEngine};
use ai_ark::http::HttpContext;
use ai_ark::instance::{Instance, LifecycleError, Report, State, Transition};
use ai_ark::outcome::{Completion, Outcome};

const COMMAND: &str = r#"
(component
  (core module $m (func (export "run") (result i32) i32.const 0))
  (core instance $i (instantiate $m))
  (func $run (result (result)) (canon lift (core func $i "run")))
  (instance $api (export "run" (func $run)))
  (export "wasi:cli/run@0.2.2" (instance $api)))
"#;

fn module() -> CompiledModule {
    let engine = ExecutionEngine::new().expect("engine");
    let bytes = wat::parse_str(COMMAND).expect("the text is a component");
    engine.load(&bytes).expect("the component is a command")
}

fn plain(stdin: &[u8]) -> Capabilities {
    let mut builder = HostContextBuilder::new();
    builder.stdin(stdin.to_vec());
    builder.stdout(1024 * 1024);
    builder.stderr(1024 * 1024);
    builder.build()
}

fn running<'m>(module: &'m CompiledModule, caps: Capabilities, budget: u64) -> Instance<'m> {
    let mut instance = Instance::new(module, caps, HttpContext::denied());
    instance.instantiate(budget).expect("from Created");
    instance.start(Some(budget)).expect("from Instantiated");
    instance
}

#[test]
fn new_instance_is_created_and_holds_nothing() {
    let module = module();
    let instance = Instance::new(&module, plain(b"{}"), HttpContext::denied());
    assert_eq!(instance.state(), State::Created);
    assert!(instance.handles().is_empty());
    assert!(instance.report().is_none());
    assert!(instance.stdout().is_none());
    assert!(instance.stderr().is_none());
    assert_eq!(instance.capabilities().stdin(), &b"{}".to_vec());
    assert_eq!(instance.limits().initial(), 0);
}

#[test]
fn lifecycle_runs_from_created_to_completed() {
    let module = module();
    let mut instance = Instance::new(&module, plain(b"{}"), HttpContext::denied());
    assert!(!instance.state().is_terminal());
    assert_eq!(instance.instantiate(1_000), Ok(()));
    assert_eq!(instance.state(), State::Instantiated);
    assert_eq!(instance.limits().initial(), 1_000);
    assert_eq!(instance.limits().remaining(), 1_000);
    assert_eq!(instance.start(Some(990)), Ok(()));
    assert_eq!(instance.state(), State::Running);
    assert_eq!(instance.limits().remaining(), 990);
    assert!(instance.report().is_none());
    assert_eq!(
        instance.finish(
            Completion::Returned { success: true },
            Some(400),
            b"answer".to_vec(),
            Vec::new()
        ),
        Ok(())
    );
    assert_eq!(instance.state(), State::Completed);
    assert!(instance.state().is_terminal());
    assert_eq!(
        instance.report(),
        Some(&Report {
            outcome: Outcome::Success,
            budget_consumed: 590,
            stdout: b"answer".to_vec(),
            stderr: Vec::new(),
        })
    );
    assert_eq!(instance.report().expect("terminal").exit_code(), 0);
    assert_eq!(instance.limits().remaining(), 400);
    assert_eq!(instance.limits().consumed(), 600);
}

#[test]
fn steps_out_of_order_are_refused_and_change_nothing() {
    let module = module();
    let mut instance = Instance::new(&module, plain(b""), HttpContext::denied());
    assert_eq!(
        instance.start(Some(1)),
        Err(LifecycleError { state: State::Created, attempted: Transition::Start })
    );
    assert_eq!(
        instance.finish(Completion::Trapped, None, Vec::new(), Vec::new()),
        Err(LifecycleError { state: State::Created, attempted: Transition::Finish })
    );
    assert_eq!(instance.state(), State::Created);
    instance.instantiate(10).expect("from Created");
    assert_eq!(
        instance.instantiate(20),
        Err(LifecycleError { state: State::Instantiated, attempted: Transition::Instantiate })
    );
    assert_eq!(instance.limits().initial(), 10);
    assert_eq!(
        instance.finish(Completion::Trapped, None, Vec::new(), Vec::new()),
        Err(LifecycleError { state: State::Instantiated, attempted: Transition::Finish })
    );
    instance.start(Some(10)).expect("from Instantiated");
    assert_eq!(
        instance.start(Some(5)),
        Err(LifecycleError { state: State::Running, attempted: Transition::Start })
    );
    assert_eq!(instance.limits().remaining(), 10);
    assert_eq!(
        instance.instantiate(20),
        Err(LifecycleError { state: State::Running, attempted: Transition::Instantiate })
    );
}

#[test]
fn terminal_states_are_final() {
    let module = module();
    for (completion, state) in [
        (Completion::Returned { success: true }, State::Completed),
        (Completion::Returned { success: false }, State::Completed),
        (Completion::Exited { code: 0 }, State::Completed),
        (Completion::Exited { code: 7 }, State::Completed),
        (Completion::OutOfFuel, State::BudgetExhausted),
        (Completion::Trapped, State::Failed),
    ] {
        let mut instance = running(&module, plain(b""), 100);
        instance.finish(completion, Some(50), b"out".to_vec(), b"err".to_vec()).expect("Running");
        assert_eq!(instance.state(), state);
        assert!(instance.state().is_terminal());
        let before = instance.report().cloned();
        assert_eq!(
            instance.instantiate(5),
            Err(LifecycleError { state, attempted: Transition::Instantiate })
        );
        assert_eq!(
            instance.start(Some(5)),
            Err(LifecycleError { state, attempted: Transition::Start })
        );
        assert_eq!(
            instance.finish(Completion::Returned { success: true }, Some(0), Vec::new(), Vec::new()),
            Err(LifecycleError { state, attempted: Transition::Finish })
        );
        assert_eq!(instance.state(), state);
        assert_eq!(instance.report().cloned(), before);
    }
}

#[test]
fn malformed_payload_is_a_guest_reported_failure() {
    let module = module();
    let mut instance = running(&module, plain(b"{}"), 100_000_000);
    let diagnostic = b"Error: missing field `prompt` at line 1 column 2".to_vec();
    instance
        .finish(
            Completion::Returned { success: false },
            Some(99_250_000),
            Vec::new(),
            diagnostic.clone(),
        )
        .expect("Running");
    let report = instance.report().expect("terminal");
    assert_eq!(report.outcome, Outcome::GuestReportedFailure);
    assert_ne!(report.exit_code(), 0);
    assert!(report.stdout.is_empty());
    assert!(!report.stderr.is_empty());
    assert_eq!(report.stderr, diagnostic);
    assert_eq!(report.budget_consumed, 750_000);
    assert_eq!(instance.state(), State::Completed);
}

#[test]
fn budget_of_one_is_exhausted_by_nontrivial_work() {
    let module = module();
    let mut instance = running(&module, plain(b"{\"prompt\":\"hi\"}"), 1);
    instance.finish(Completion::OutOfFuel, Some(0), Vec::new(), Vec::new()).expect("Running");
    let report = instance.report().expect("terminal");
    assert_eq!(report.outcome, Outcome::BudgetExhausted);
    assert_eq!(report.budget_consumed, 1);
    assert!(report.stdout.is_empty());
    assert_eq!(instance.state(), State::BudgetExhausted);
    assert!(instance.limits().is_exhausted());
    assert_eq!(report.exit_code(), 2);
}

#[test]
fn exhaustion_spends_the_budget_whatever_the_reading_says() {
    let module = module();
    for reading in [None, Some(0), Some(3), Some(1_000)] {
        let mut instance = running(&module, plain(b""), 40);
        instance.finish(Completion::OutOfFuel, reading, Vec::new(), Vec::new()).expect("Running");
        assert_eq!(instance.report().expect("terminal").budget_consumed, 40);
        assert_eq!(instance.limits().remaining(), 0);
    }
}

#[test]
fn budget_of_zero_ends_in_exhaustion_with_nothing_spent() {
    let module = module();
    let mut instance = running(&module, plain(b""), 0);
    instance.finish(Completion::OutOfFuel, Some(0), Vec::new(), Vec::new()).expect("Running");
    let report = instance.report().expect("terminal");
    assert_eq!(report.outcome, Outcome::BudgetExhausted);
    assert_eq!(report.budget_consumed, 0);
}

#[test]
fn path_without_grant_never_counts_as_success() {
    let module = module();
    let caps = plain(b"{\"prompt\":\"read /etc/passwd\"}");
    assert!(caps.grants().is_empty());
    let mut refused = running(&module, caps, 1_000);
    for handle in refused.handles().clone() {
        assert!(!matches!(refused.resolve(handle), Some(Capability::Directory { .. })));
    }
    refused
        .finish(
            Completion::Returned { success: false },
            Some(10),
            Vec::new(),
            b"open failed".to_vec(),
        )
        .expect("Running");
    assert_eq!(refused.report().expect("terminal").outcome, Outcome::GuestReportedFailure);
    assert_ne!(refused.report().expect("terminal").exit_code(), 0);

    let mut trapped = running(&module, plain(b""), 1_000);
    trapped.finish(Completion::Trapped, Some(10), Vec::new(), Vec::new()).expect("Running");
    assert_eq!(trapped.report().expect("terminal").outcome, Outcome::HostTrap);
    assert_eq!(trapped.state(), State::Failed);
    assert_eq!(trapped.report().expect("terminal").exit_code(), 3);
}

#[test]
fn two_instances_of_one_module_do_not_touch_each_other() {
    let module = module();
    let mut first_caps = HostContextBuilder::new();
    first_caps.stdin(b"first".to_vec());
    first_caps.env("WHO", "first");
    first_caps.preopened_dir("/one", ".", DirPerms::all(), FilePerms::all(), true).expect("opened");
    let mut second_caps = HostContextBuilder::new();
    second_caps.stdin(b"second".to_vec());
    second_caps.env("WHO", "second");

    let mut first = Instance::new(&module, first_caps.build(), HttpContext::denied());
    let mut second = Instance::new(&module, second_caps.build(), HttpContext::new());
    first.instantiate(500).expect("from Created");
    second.instantiate(9).expect("from Created");
    first.start(Some(500)).expect("from Instantiated");
    assert_eq!(second.state(), State::Instantiated);
    second.start(Some(9)).expect("from Instantiated");
    second.finish(Completion::OutOfFuel, Some(0), Vec::new(), b"second err".to_vec()).expect("Running");
    assert_eq!(first.state(), State::Running);
    assert!(first.report().is_none());
    assert_eq!(first.limits().remaining(), 500);
    first
        .finish(Completion::Returned { success: true }, Some(100), b"first out".to_vec(), Vec::new())
        .expect("Running");

    assert_eq!(
        first.report(),
        Some(&Report {
            outcome: Outcome::Success,
            budget_consumed: 400,
            stdout: b"first out".to_vec(),
            stderr: Vec::new(),
        })
    );
    assert_eq!(
        second.report(),
        Some(&Report {
            outcome: Outcome::BudgetExhausted,
            budget_consumed: 9,
            stdout: Vec::new(),
            stderr: b"second err".to_vec(),
        })
    );
    assert_eq!(first.capabilities().env_value("WHO"), Some(&"first".to_string()));
    assert_eq!(second.capabilities().env_value("WHO"), Some(&"second".to_string()));
    assert_eq!(first.capabilities().stdin(), &b"first".to_vec());
    assert_eq!(second.capabilities().stdin(), &b"second".to_vec());
    let first_released = first.destroy();
    assert!(first_released.contains(&Capability::Directory { grant: 0 }));
    assert!(!first_released.contains(&Capability::OutboundHttp));
    let second_released = second.destroy();
    assert!(second_released.contains(&Capability::OutboundHttp));
    assert!(!second_released.contains(&Capability::Directory { grant: 0 }));
}

#[test]
fn identical_invocations_give_identical_reports() {
    let module = module();
    let mut reports = Vec::new();
    for _ in 0..2 {
        let mut instance = running(&module, plain(b"{\"prompt\":\"hi\"}"), 100_000_000);
        instance
            .finish(
                Completion::Returned { success: true },
                Some(12_345),
                b"Hello!".to_vec(),
                Vec::new(),
            )
            .expect("Running");
        reports.push(instance.report().cloned().expect("terminal"));
    }
    assert_eq!(reports[0], reports[1]);
    assert_eq!(reports[0].stdout, b"Hello!".to_vec());
}

#[test]
fn instantiate_registers_every_resource_once() {
    let module = module();
    let mut builder = HostContextBuilder::new();
    builder.preopened_dir("/a", "a", DirPerms::all(), FilePerms::all(), true).expect("opened");
    builder
        .preopened_dir("/b", "b", DirPerms::read_only(), FilePerms::read_only(), true)
        .expect("opened");
    let mut instance = Instance::new(&module, builder.build(), HttpContext::new());
    assert_eq!(instance.http(), HttpContext::OutboundOnly);
    instance.instantiate(1).expect("from Created");
    let expected = vec![
        Capability::Stdin,
        Capability::Stdout,
        Capability::Stderr,
        Capability::Environment,
        Capability::Directory { grant: 0 },
        Capability::Directory { grant: 1 },
        Capability::OutboundHttp,
    ];
    let handles = instance.handles().clone();
    assert_eq!(handles.len(), expected.len());
    for (i, handle) in handles.iter().enumerate() {
        assert_eq!(instance.resolve(*handle), Some(expected[i]));
        for other in &handles[i + 1..] {
            assert_ne!(handle.index(), other.index());
        }
    }
    assert_eq!(instance.destroy(), expected);
}

#[test]
fn destroy_releases_in_every_state() {
    let module = module();
    let expected =
        vec![Capability::Stdin, Capability::Stdout, Capability::Stderr, Capability::Environment];

    let created = Instance::new(&module, plain(b""), HttpContext::denied());
    assert_eq!(created.destroy(), Vec::<Capability>::new());

    let mut instantiated = Instance::new(&module, plain(b""), HttpContext::denied());
    instantiated.instantiate(5).expect("from Created");
    assert_eq!(instantiated.destroy(), expected);

    let cancelled = running(&module, plain(b""), 5);
    assert_eq!(cancelled.destroy(), expected);

    for completion in [
        Completion::Returned { success: true },
        Completion::Returned { success: false },
        Completion::OutOfFuel,
        Completion::Trapped,
    ] {
        let mut finished = running(&module, plain(b""), 5);
        finished.finish(completion, Some(1), Vec::new(), Vec::new()).expect("Running");
        assert_eq!(finished.destroy(), expected);
    }
}

#[test]
fn handles_stay_valid_through_the_invocation() {
    let module = module();
    let mut instance = Instance::new(&module, plain(b""), HttpContext::denied());
    instance.instantiate(50).expect("from Created");
    let handles = instance.handles().clone();
    instance.start(Some(50)).expect("from Instantiated");
    assert_eq!(instance.handles(), &handles);
    instance.finish(Completion::Trapped, Some(20), Vec::new(), Vec::new()).expect("Running");
    assert_eq!(instance.handles(), &handles);
    assert_eq!(instance.resolve(handles[0]), Some(Capability::Stdin));
    assert_eq!(instance.resolve(handles[3]), Some(Capability::Environment));
}

#[test]
fn handle_of_another_instance_resolves_only_to_what_this_one_registered() {
    let module = module();
    let mut builder = HostContextBuilder::new();
    builder.preopened_dir("/a", "a", DirPerms::all(), FilePerms::all(), true).expect("opened");
    let mut rich = Instance::new(&module, builder.build(), HttpContext::denied());
    rich.instantiate(1).expect("from Created");
    let mut poor = Instance::new(&module, plain(b""), HttpContext::denied());
    poor.instantiate(1).expect("from Created");
    let dir_handle = rich.handles()[4];
    assert_eq!(rich.resolve(dir_handle), Some(Capability::Directory { grant: 0 }));
    assert_eq!(poor.resolve(dir_handle), None);
    let unbound = Instance::new(&module, plain(b""), HttpContext::denied());
    assert_eq!(unbound.resolve(dir_handle), None);
}

#[test]
fn readings_before_and_after_bound_the_cost() {
    let module = module();
    let cases: [(u64, Option<u64>, Option<u64>, u64); 7] = [
        (100, Some(100), Some(100), 0),
        (100, Some(100), Some(0), 100),
        (100, Some(80), Some(30), 50),
        (100, Some(80), Some(90), 0),
        (100, Some(200), Some(60), 40),
        (100, None, None, 0),
        (100, Some(70), None, 70),
    ];
    for (budget, before, after, cost) in cases {
        let mut instance = Instance::new(&module, plain(b""), HttpContext::denied());
        instance.instantiate(budget).expect("from Created");
        instance.start(before).expect("from Instantiated");
        instance
            .finish(Completion::Returned { success: true }, after, Vec::new(), Vec::new())
            .expect("Running");
        let report = instance.report().expect("terminal");
        assert_eq!(report.budget_consumed, cost);
        assert!(report.budget_consumed <= budget);
    }
}

#[test]
fn more_work_never_costs_less() {
    let module = module();
    let mut last = 0;
    for after in [1_000u64, 999, 500, 500, 1, 0] {
        let mut instance = running(&module, plain(b""), 1_000);
        instance
            .finish(Completion::Returned { success: true }, Some(after), Vec::new(), Vec::new())
            .expect("Running");
        let cost = instance.report().expect("terminal").budget_consumed;
        assert!(cost >= last);
        assert!(cost <= 1_000);
        last = cost;
    }
    assert_eq!(last, 1_000);
}

#[test]
fn stderr_is_kept_for_every_outcome() {
    let module = module();
    for completion in [
        Completion::Returned { success: true },
        Completion::Returned { success: false },
        Completion::Exited { code: 1 },
        Completion::OutOfFuel,
        Completion::Trapped,
    ] {
        let mut instance = running(&module, plain(b""), 10);
        instance
            .finish(completion, Some(5), b"partial".to_vec(), b"diagnostic".to_vec())
            .expect("Running");
        assert_eq!(instance.stderr(), Some(&b"diagnostic".to_vec()));
        assert_eq!(instance.stdout(), Some(&b"partial".to_vec()));
    }
}

#[test]
fn guest_exit_codes_are_guest_verdicts() {
    let module = module();
    let mut clean = running(&module, plain(b""), 10);
    clean.finish(Completion::Exited { code: 0 }, Some(5), Vec::new(), Vec::new()).expect("Running");
    assert_eq!(clean.report().expect("terminal").outcome, Outcome::Success);
    let mut failed = running(&module, plain(b""), 10);
    failed
        .finish(
            Completion::Exited { code: 1 },
            Some(5),
            Vec::new(),
            b"Error: OPENAI_API_KEY not found in environment variables\n".to_vec(),
        )
        .expect("Running");
    let report = failed.report().expect("terminal");
    assert_eq!(report.outcome, Outcome::GuestReportedFailure);
    assert_eq!(report.exit_code(), 1);
}

#[test]
fn instance_keeps_its_module() {
    let module = module();
    let instance = Instance::new(&module, plain(b""), HttpContext::denied());
    assert!(std::ptr::eq(instance.module(), &module));
}

#[test]
fn exhaustion_costs_the_whole_budget_when_the_reading_before_was_not_below_it() {
    let module = module();
    for budget in [1u64, 2, 1_000, u64::MAX] {
        for before in [Some(budget), Some(u64::MAX)] {
            let mut instance = Instance::new(&module, plain(b""), HttpContext::denied());
            instance.instantiate(budget).expect("from Created");
            instance.start(before).expect("from Instantiated");
            instance
                .finish(Completion::OutOfFuel, Some(0), Vec::new(), Vec::new())
                .expect("Running");
            let report = instance.report().expect("terminal");
            assert_eq!(report.outcome, Outcome::BudgetExhausted);
            assert_eq!(report.budget_consumed, budget);
            assert_eq!(instance.limits().consumed(), budget);
        }
    }
}

#[test]
fn exhaustion_after_a_costly_instantiation_empties_the_register() {
    let module = module();
    let mut instance = Instance::new(&module, plain(b""), HttpContext::denied());
    instance.instantiate(100).expect("from Created");
    instance.start(Some(60)).expect("from Instantiated");
    instance.finish(Completion::OutOfFuel, Some(0), Vec::new(), Vec::new()).expect("Running");
    assert_eq!(instance.report().expect("terminal").budget_consumed, 60);
    assert_eq!(instance.limits().consumed(), 100);
    assert_eq!(instance.limits().remaining(), 0);
}

#[test]
fn stale_handle_of_a_destroyed_instance_resolves_nowhere() {
    let module = module();
    let mut first = Instance::new(&module, plain(b""), HttpContext::denied());
    first.instantiate(1).expect("from Created");
    let handles = first.handles().clone();
    assert_eq!(first.destroy().len(), 4);
    let fresh = Instance::new(&module, plain(b""), HttpContext::denied());
    for handle in handles {
        assert_eq!(fresh.resolve(handle), None);
    }
}
