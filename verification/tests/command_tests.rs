use soroban_debug::command::{parse_command, Command};
use soroban_debug::ui::DebuggerUI;
use soroban_debug::engine::DebuggerEngine;

fn tokens(line: &str) -> Vec<String> {
    line.split_whitespace().map(str::to_string).collect()
}

#[test]
fn run_takes_function_and_joined_args() {
    match parse_command(&tokens("run hello [1, 2]")) {
        Command::Run { function, args } => {
            assert_eq!(function, "hello");
            assert_eq!(args.as_deref(), Some("[1, 2]"));
        }
        _ => panic!("expected a run command"),
    }
    match parse_command(&tokens("run hello")) {
        Command::Run { function, args } => {
            assert_eq!(function, "hello");
            assert_eq!(args, None);
        }
        _ => panic!("expected a run command"),
    }
    assert!(matches!(
        parse_command(&tokens("run")),
        Command::RunMissingFunction
    ));
}

#[test]
fn short_and_long_forms_mean_the_same() {
    assert!(matches!(parse_command(&tokens("s")), Command::Step));
    assert!(matches!(parse_command(&tokens("step")), Command::Step));
    assert!(matches!(parse_command(&tokens("c")), Command::Continue));
    assert!(matches!(parse_command(&tokens("continue")), Command::Continue));
    assert!(matches!(parse_command(&tokens("i")), Command::Inspect));
    assert!(matches!(parse_command(&tokens("inspect")), Command::Inspect));
    assert!(matches!(parse_command(&tokens("q")), Command::Quit));
    assert!(matches!(parse_command(&tokens("quit")), Command::Quit));
    assert!(matches!(parse_command(&tokens("exit")), Command::Quit));
}

#[test]
fn inspection_commands() {
    assert!(matches!(parse_command(&tokens("storage")), Command::Storage));
    assert!(matches!(parse_command(&tokens("stack")), Command::Stack));
    assert!(matches!(parse_command(&tokens("budget")), Command::Budget));
    assert!(matches!(parse_command(&tokens("help")), Command::Help));
    assert!(matches!(
        parse_command(&tokens("list-breaks")),
        Command::ListBreaks
    ));
}

#[test]
fn breakpoint_commands_take_a_name() {
    match parse_command(&tokens("break transfer")) {
        Command::Break { function } => assert_eq!(function, "transfer"),
        _ => panic!("expected a break command"),
    }
    match parse_command(&tokens("clear transfer")) {
        Command::Clear { function } => assert_eq!(function, "transfer"),
        _ => panic!("expected a clear command"),
    }
    assert!(matches!(
        parse_command(&tokens("break")),
        Command::BreakMissingName
    ));
    assert!(matches!(
        parse_command(&tokens("clear")),
        Command::ClearMissingName
    ));
}

#[test]
fn unknown_and_empty_lines() {
    assert!(matches!(parse_command(&tokens("")), Command::Empty));
    match parse_command(&tokens("frobnicate now")) {
        Command::Unknown { word } => assert_eq!(word, "frobnicate"),
        _ => panic!("expected an unknown command"),
    }
}

#[test]
fn session_holds_engine_and_storage() {
    let engine = DebuggerEngine::new();
    let mut ui = DebuggerUI::new(engine).unwrap();
    ui.storage_inspector_mut().record("counter", "3");
    assert_eq!(
        ui.storage_inspector().get("counter").map(String::as_str),
        Some("3")
    );
    assert!(!ui.engine().is_paused());
    ui.engine_mut().breakpoints_mut().add("f");
    assert!(ui.engine().state().step_count == 0);
}
