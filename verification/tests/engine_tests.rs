use soroban_debug::engine::{DebuggerEngine, DriveOutcome, EngineError, HostEvent, HostSignal, RunPhase};

fn enter(engine: &mut DebuggerEngine, function: &str) -> HostSignal {
    engine.on_function_entry(function.to_string(), String::new())
}

#[test]
fn breakpoint_pauses_on_entry() {
    let mut engine = DebuggerEngine::new();
    engine.breakpoints_mut().add("transfer");
    engine.begin_execute().unwrap();
    assert_eq!(enter(&mut engine, "main"), HostSignal::Proceed);
    assert!(!engine.is_paused());
    assert_eq!(enter(&mut engine, "transfer"), HostSignal::Suspend);
    assert!(engine.is_paused());
    assert_eq!(
        engine.state().current_function.as_deref(),
        Some("transfer")
    );
}

#[test]
fn end_to_end_session() {
    // Registry starts empty; break on "transfer"; call graph is
    // main -> transfer -> log.
    let mut engine = DebuggerEngine::new();
    assert!(engine.breakpoints_mut().list().is_empty());
    engine.breakpoints_mut().add("transfer");
    engine.begin_execute().unwrap();

    assert_eq!(enter(&mut engine, "main"), HostSignal::Proceed);
    assert_eq!(enter(&mut engine, "transfer"), HostSignal::Suspend);
    assert!(engine.is_paused());
    let stack = engine.state().call_stack.get_stack();
    assert_eq!(stack.len(), 2);
    assert_eq!(stack[0].function, "main");
    assert_eq!(stack[1].function, "transfer");

    let before = engine.state().step_count;
    engine.step().unwrap();
    assert_eq!(enter(&mut engine, "log"), HostSignal::Suspend);
    assert_eq!(engine.state().step_count, before + 1);
    let stack = engine.state().call_stack.get_stack();
    assert_eq!(stack.len(), 3);
    assert_eq!(stack[2].function, "log");

    engine.continue_execution().unwrap();
    assert_eq!(engine.on_function_exit(), HostSignal::Proceed);
    assert_eq!(engine.on_function_exit(), HostSignal::Proceed);
    assert_eq!(engine.on_function_exit(), HostSignal::Proceed);
    assert!(!engine.is_paused());
    assert_eq!(engine.state().call_stack.depth(), 0);
    assert_eq!(engine.phase(), RunPhase::Idle);
}

#[test]
fn step_increments_count_by_exactly_one() {
    let mut engine = DebuggerEngine::new();
    engine.breakpoints_mut().add("f");
    engine.begin_execute().unwrap();
    assert_eq!(enter(&mut engine, "f"), HostSignal::Suspend);
    assert_eq!(engine.state().step_count, 0);
    engine.step().unwrap();
    assert_eq!(engine.state().step_count, 1);
    // The step completes the invocation: the outermost frame returns.
    assert_eq!(engine.on_function_exit(), HostSignal::Proceed);
    assert_eq!(engine.state().step_count, 1);
    assert_eq!(engine.phase(), RunPhase::Idle);
}

#[test]
fn step_pauses_at_exit_boundary() {
    let mut engine = DebuggerEngine::new();
    engine.breakpoints_mut().add("inner");
    engine.begin_execute().unwrap();
    assert_eq!(enter(&mut engine, "outer"), HostSignal::Proceed);
    assert_eq!(enter(&mut engine, "inner"), HostSignal::Suspend);
    engine.step().unwrap();
    // The next boundary is inner's exit: re-pause there, in outer.
    assert_eq!(engine.on_function_exit(), HostSignal::Suspend);
    assert!(engine.is_paused());
    assert_eq!(engine.state().current_function.as_deref(), Some("outer"));
    assert_eq!(engine.state().call_stack.depth(), 1);
}

#[test]
fn continue_runs_to_next_breakpoint_or_completion() {
    let mut engine = DebuggerEngine::new();
    engine.breakpoints_mut().add("pay");
    engine.begin_execute().unwrap();
    assert_eq!(enter(&mut engine, "main"), HostSignal::Proceed);
    assert_eq!(enter(&mut engine, "pay"), HostSignal::Suspend);
    engine.continue_execution().unwrap();
    assert!(!engine.is_paused());
    assert_eq!(engine.on_function_exit(), HostSignal::Proceed);
    // A second call of a breakpoint function pauses again.
    assert_eq!(enter(&mut engine, "pay"), HostSignal::Suspend);
    assert!(engine.is_paused());
    assert_eq!(engine.state().current_function.as_deref(), Some("pay"));
    engine.continue_execution().unwrap();
    assert_eq!(engine.on_function_exit(), HostSignal::Proceed);
    assert_eq!(engine.on_function_exit(), HostSignal::Proceed);
    assert!(!engine.is_paused());
    assert_eq!(engine.state().call_stack.depth(), 0);
}

#[test]
fn execute_while_paused_is_already_running() {
    let mut engine = DebuggerEngine::new();
    engine.breakpoints_mut().add("f");
    engine.begin_execute().unwrap();
    assert_eq!(enter(&mut engine, "f"), HostSignal::Suspend);
    assert_eq!(engine.begin_execute(), Err(EngineError::AlreadyRunning));
    // The paused state is untouched by the refused command.
    assert!(engine.is_paused());
    assert_eq!(engine.state().current_function.as_deref(), Some("f"));
}

#[test]
fn step_and_continue_require_a_pause() {
    let mut engine = DebuggerEngine::new();
    assert_eq!(engine.step(), Err(EngineError::NotPaused));
    assert_eq!(engine.continue_execution(), Err(EngineError::NotPaused));
    assert_eq!(engine.state().step_count, 0);
}

#[test]
fn fault_captures_stack_and_finishes_session() {
    let mut engine = DebuggerEngine::new();
    engine.begin_execute().unwrap();
    assert_eq!(enter(&mut engine, "main"), HostSignal::Proceed);
    assert_eq!(enter(&mut engine, "oops"), HostSignal::Proceed);
    let trace = engine.on_host_fault();
    assert_eq!(trace.len(), 2);
    assert_eq!(trace[0].function, "main");
    assert_eq!(trace[1].function, "oops");
    assert!(!engine.is_paused());
    assert_eq!(engine.state().call_stack.depth(), 0);
    assert_eq!(engine.phase(), RunPhase::Finished);
    // Only a fresh execute recovers the session.
    assert_eq!(engine.step(), Err(EngineError::NotPaused));
    engine.begin_execute().unwrap();
    assert_eq!(engine.phase(), RunPhase::Running);
}

#[test]
fn entry_records_arguments() {
    let mut engine = DebuggerEngine::new();
    engine.breakpoints_mut().add("hello");
    engine.begin_execute().unwrap();
    assert_eq!(
        engine.on_function_entry("hello".to_string(), "[\"token\"]".to_string()),
        HostSignal::Suspend
    );
    assert_eq!(engine.state().current_args.as_deref(), Some("[\"token\"]"));
}

#[test]
fn drive_delivers_callbacks_until_a_stop() {
    let mut engine = DebuggerEngine::new();
    engine.breakpoints_mut().add("transfer");
    engine.begin_execute().unwrap();
    let events = vec![
        HostEvent::Enter { function: "main".to_string(), args: String::new() },
        HostEvent::Enter { function: "transfer".to_string(), args: String::new() },
        HostEvent::Enter { function: "log".to_string(), args: String::new() },
        HostEvent::Exit,
        HostEvent::Exit,
        HostEvent::Exit,
    ];
    let (outcome, pos) = engine.drive(&events, 0);
    assert!(matches!(outcome, DriveOutcome::Suspended));
    assert_eq!(pos, 2);
    assert!(engine.is_paused());
    assert_eq!(engine.state().current_function.as_deref(), Some("transfer"));

    engine.continue_execution().unwrap();
    let (outcome, pos) = engine.drive(&events, pos);
    assert!(matches!(outcome, DriveOutcome::Completed));
    assert_eq!(pos, events.len());
    assert!(!engine.is_paused());
    assert_eq!(engine.state().call_stack.depth(), 0);
}

#[test]
fn drive_reports_a_fault_with_its_trace() {
    let mut engine = DebuggerEngine::new();
    engine.begin_execute().unwrap();
    let events = vec![
        HostEvent::Enter { function: "main".to_string(), args: String::new() },
        HostEvent::Fault,
    ];
    let (outcome, _) = engine.drive(&events, 0);
    match outcome {
        DriveOutcome::Faulted(trace) => {
            assert_eq!(trace.len(), 1);
            assert_eq!(trace[0].function, "main");
        }
        _ => panic!("expected a fault outcome"),
    }
    assert_eq!(engine.phase(), RunPhase::Finished);
}

#[test]
fn drive_refuses_an_unpaired_exit() {
    let mut engine = DebuggerEngine::new();
    engine.begin_execute().unwrap();
    let events = vec![HostEvent::Exit];
    let (outcome, pos) = engine.drive(&events, 0);
    assert!(matches!(outcome, DriveOutcome::ProtocolViolation));
    assert_eq!(pos, 0);
    assert_eq!(engine.phase(), RunPhase::Running);
}
