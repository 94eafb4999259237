use runjs::bundle::CapabilityBundle;
use runjs::driver::{Action, Driver, Event, ModuleReference, Progress, Stage, EXIT_FAILURE, EXIT_SUCCESS};
use runjs::error::{ErrorKind, IoCause, RunError};

fn fresh(entry: &str) -> Driver {
    Driver::new(CapabilityBundle::runjs(), String::from(entry))
}

fn module(id: usize) -> ModuleReference {
    ModuleReference { specifier: String::from("file:///work/example.js"), id }
}

fn success_of(stage: usize) -> Event {
    match stage {
        0 => Event::EngineCreated,
        1 => Event::BootstrapEvaluated,
        2 => Event::ModuleLoaded(module(7)),
        3 => Event::EvaluationScheduled,
        4 => Event::LoopDrained,
        5 => Event::EvaluationSucceeded,
        _ => unreachable!(),
    }
}

fn advance(mut driver: Driver, stages: usize) -> Driver {
    for i in 0..stages {
        driver = driver.step(success_of(i)).0;
    }
    driver
}

fn replay(entry: &str, events: Vec<Event>) -> (Driver, Vec<Action>) {
    let mut driver = fresh(entry);
    let mut actions = vec![driver.action()];
    for event in events {
        let (next, action) = driver.step(event);
        driver = next;
        actions.push(action);
    }
    (driver, actions)
}

#[test]
fn new_driver_stands_at_init() {
    let d = fresh("./example.js");
    assert_eq!(d.stage(), Stage::Init);
    assert!(!d.is_finished());
    assert_eq!(d.entry(), "./example.js");
    assert_eq!(d.bundle().name(), "runjs");
    assert_eq!(d.bundle().len(), 3);
    assert_eq!(d.action(), Action::CreateEngine);
    assert_eq!(*d.progress(), Progress::Init);
}

#[test]
fn a_run_walks_through_the_stages_in_order() {
    let events = (0..6).map(success_of).collect();
    let (d, actions) = replay("./example.js", events);
    assert_eq!(
        actions,
        vec![
            Action::CreateEngine,
            Action::RunBootstrap,
            Action::LoadModule { path: String::from("./example.js") },
            Action::Evaluate { module: 7 },
            Action::RunEventLoop { wait_for_child_resources: false },
            Action::AwaitEvaluation,
            Action::Exit { status: 0 },
        ]
    );
    assert_eq!(d.stage(), Stage::Completed);
    assert!(d.is_finished());
    assert_eq!(*d.progress(), Progress::Completed(module(7)));
}

#[test]
fn stages_follow_one_another() {
    let expected = [
        Stage::Init,
        Stage::Bootstrap,
        Stage::Load,
        Stage::Evaluate,
        Stage::Drain,
        Stage::Finish,
        Stage::Completed,
    ];
    for (n, stage) in expected.iter().enumerate() {
        let d = advance(fresh("m.js"), n);
        assert_eq!(d.stage(), *stage);
        assert_eq!(d.is_finished(), n == 6);
    }
}

#[test]
fn step_gives_the_action_of_the_new_state() {
    let mut d = fresh("m.js");
    for i in 0..6 {
        let (next, action) = d.step(success_of(i));
        assert_eq!(action, next.action());
        d = next;
    }
}

#[test]
fn exit_statuses() {
    assert_eq!(EXIT_SUCCESS, 0);
    assert_eq!(EXIT_FAILURE, 1);
}

#[test]
fn load_action_carries_the_entry_path_verbatim() {
    let d = advance(fresh("../scripts/entry module.mjs"), 2);
    assert_eq!(d.action(), Action::LoadModule { path: String::from("../scripts/entry module.mjs") });
}

#[test]
fn evaluate_action_names_the_loaded_module() {
    let d = advance(fresh("m.js"), 2);
    let (d, action) = d.step(Event::ModuleLoaded(ModuleReference {
        specifier: String::from("file:///m.js"),
        id: 42,
    }));
    assert_eq!(action, Action::Evaluate { module: 42 });
    assert_eq!(
        *d.progress(),
        Progress::Evaluate(ModuleReference { specifier: String::from("file:///m.js"), id: 42 })
    );
}

#[test]
fn drain_does_not_wait_for_child_resources() {
    let d = advance(fresh("m.js"), 4);
    assert_eq!(d.stage(), Stage::Drain);
    assert_eq!(d.action(), Action::RunEventLoop { wait_for_child_resources: false });
}

#[test]
fn bootstrap_failure_prevents_load() {
    let (d, actions) = replay(
        "m.js",
        vec![
            Event::EngineCreated,
            Event::Failed(RunError::script(String::from("Uncaught ReferenceError: Deno is not defined"))),
            Event::BootstrapEvaluated,
            Event::ModuleLoaded(module(1)),
            Event::EvaluationScheduled,
            Event::LoopDrained,
            Event::EvaluationSucceeded,
        ],
    );
    assert_eq!(d.stage(), Stage::Aborted);
    for action in &actions {
        assert!(!matches!(action, Action::LoadModule { .. }));
        assert!(!matches!(action, Action::Evaluate { .. }));
    }
    let report = Action::Report {
        line: String::from("error: Uncaught ReferenceError: Deno is not defined"),
        status: 1,
    };
    assert_eq!(actions[0], Action::CreateEngine);
    assert_eq!(actions[1], Action::RunBootstrap);
    for action in &actions[2..] {
        assert_eq!(*action, report);
    }
}

#[test]
fn engine_failure_aborts_before_the_bootstrap() {
    let (d, actions) = replay(
        "m.js",
        vec![Event::Failed(RunError::configuration(String::from("invalid snapshot")))],
    );
    assert_eq!(d.stage(), Stage::Aborted);
    assert_eq!(
        actions,
        vec![
            Action::CreateEngine,
            Action::Report { line: String::from("error: invalid snapshot"), status: 1 },
        ]
    );
}

#[test]
fn unresolvable_entry_aborts_the_run() {
    let d = advance(fresh("./missing.js"), 2);
    let failure = RunError::module_resolution(String::from("Module not found \"file:///work/missing.js\"."));
    let (d, action) = d.step(Event::Failed(failure.clone()));
    assert_eq!(d.stage(), Stage::Aborted);
    assert_eq!(*d.progress(), Progress::Aborted(failure));
    assert_eq!(
        action,
        Action::Report {
            line: String::from("error: Module not found \"file:///work/missing.js\"."),
            status: 1,
        }
    );
}

#[test]
fn failed_read_of_a_missing_file_aborts_with_a_report() {
    let cause = RunError::io(IoCause::NotFound, String::from("No such file or directory (os error 2)"));
    let thrown = RunError::script(format!("Uncaught Error: {}", cause.message));
    let d = advance(fresh("m.js"), 5);
    assert_eq!(d.stage(), Stage::Finish);
    let (d, action) = d.step(Event::Failed(thrown));
    assert_eq!(d.stage(), Stage::Aborted);
    assert!(d.is_finished());
    assert_eq!(
        action,
        Action::Report {
            line: String::from("error: Uncaught Error: No such file or directory (os error 2)"),
            status: 1,
        }
    );
}

#[test]
fn event_loop_failure_skips_the_await() {
    let d = advance(fresh("m.js"), 4);
    let (d, action) = d.step(Event::Failed(RunError::script(String::from("Uncaught (in promise) 1"))));
    assert_eq!(d.stage(), Stage::Aborted);
    assert_eq!(action, Action::Report { line: String::from("error: Uncaught (in promise) 1"), status: 1 });
    let (d, action) = d.step(Event::LoopDrained);
    assert_eq!(d.stage(), Stage::Aborted);
    assert_ne!(action, Action::AwaitEvaluation);
}

#[test]
fn failure_at_every_stage_is_terminal() {
    for n in 0..6 {
        let d = advance(fresh("m.js"), n);
        let failure = RunError::io(IoCause::PermissionDenied, format!("denied at {}", n));
        let (d, action) = d.step(Event::Failed(failure.clone()));
        assert_eq!(d.stage(), Stage::Aborted);
        assert_eq!(*d.progress(), Progress::Aborted(failure));
        assert_eq!(action, Action::Report { line: format!("error: denied at {}", n), status: EXIT_FAILURE });
        let (next, again) = d.step(success_of(n));
        assert_eq!(again, action);
        assert_eq!(next.stage(), Stage::Aborted);
    }
}

#[test]
fn aborted_run_ignores_whatever_follows() {
    let first = RunError::script(String::from("first"));
    let (mut d, _) = advance(fresh("m.js"), 3).step(Event::Failed(first.clone()));
    for i in 0..6 {
        d = d.step(success_of(i)).0;
        assert_eq!(*d.progress(), Progress::Aborted(first.clone()));
    }
    let (d, action) = d.step(Event::Failed(RunError::script(String::from("second"))));
    assert_eq!(*d.progress(), Progress::Aborted(first));
    assert_eq!(action, Action::Report { line: String::from("error: first"), status: 1 });
}

#[test]
fn completed_run_ignores_whatever_follows() {
    let mut d = advance(fresh("m.js"), 6);
    for i in 0..6 {
        let (next, action) = d.step(success_of(i));
        assert_eq!(action, Action::Exit { status: EXIT_SUCCESS });
        assert_eq!(*next.progress(), Progress::Completed(module(7)));
        d = next;
    }
    let (d, action) = d.step(Event::Failed(RunError::script(String::from("late"))));
    assert_eq!(d.stage(), Stage::Completed);
    assert_eq!(action, Action::Exit { status: 0 });
}

#[test]
fn event_that_does_not_answer_the_action_aborts() {
    for n in 0..6 {
        for i in 0..6 {
            if i == n {
                continue;
            }
            let (d, action) = advance(fresh("m.js"), n).step(success_of(i));
            assert_eq!(d.stage(), Stage::Aborted);
            match d.progress() {
                Progress::Aborted(e) => {
                    assert_eq!(e.kind, ErrorKind::Configuration);
                    assert_eq!(e.message, "event does not answer the pending action");
                }
                other => panic!("not aborted: {:?}", other),
            }
            assert_eq!(
                action,
                Action::Report {
                    line: String::from("error: event does not answer the pending action"),
                    status: 1,
                }
            );
        }
    }
}

#[test]
fn skipping_the_bootstrap_never_loads() {
    let (d, actions) = replay(
        "m.js",
        vec![Event::EngineCreated, Event::ModuleLoaded(module(3)), Event::EvaluationScheduled],
    );
    assert_eq!(d.stage(), Stage::Aborted);
    assert!(actions.iter().all(|a| !matches!(a, Action::LoadModule { .. } | Action::Evaluate { .. })));
}

#[test]
fn every_run_is_over_after_six_events() {
    let failure = || Event::Failed(RunError::script(String::from("x")));
    for fail_at in 0..7 {
        let mut d = fresh("m.js");
        for i in 0..6 {
            let event = if i == fail_at { failure() } else { success_of(i) };
            d = d.step(event).0;
        }
        assert!(d.is_finished());
        assert_eq!(d.stage() == Stage::Completed, fail_at == 6);
    }
}

#[test]
fn bundle_and_entry_stay_through_the_run() {
    let mut d = fresh("./example.js");
    for i in 0..6 {
        d = d.step(success_of(i)).0;
        assert_eq!(d.entry(), "./example.js");
        assert_eq!(d.bundle().name(), "runjs");
        assert_eq!(d.bundle().position("remove-file"), Some(2));
    }
}

#[test]
fn read_write_remove_scenario_completes_with_status_zero() {
    let (d, actions) = replay(
        "./example.js",
        vec![
            Event::EngineCreated,
            Event::BootstrapEvaluated,
            Event::ModuleLoaded(ModuleReference { specifier: String::from("file:///work/example.js"), id: 0 }),
            Event::EvaluationScheduled,
            Event::LoopDrained,
            Event::EvaluationSucceeded,
        ],
    );
    assert_eq!(d.stage(), Stage::Completed);
    assert_eq!(actions.last(), Some(&Action::Exit { status: 0 }));
    assert!(actions.iter().all(|a| !matches!(a, Action::Report { .. })));
    for name in ["read-file", "write-file", "remove-file"] {
        assert!(d.bundle().lookup(name).is_some());
    }
}
