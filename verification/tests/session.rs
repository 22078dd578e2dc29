use rash::dispatch::classify_failure;
use rash::dispatch::RunOutcome;
use rash::errors::IoFailure;
use rash::errors::RashError;
use rash::rash::LoopAction;
use rash::rash::Rash;

fn failure(code: Option<i32>, message: &str) -> IoFailure {
    IoFailure { code, message: message.to_string() }
}

fn session_with_args(items: &[&str]) -> Rash {
    let mut session = Rash::new(false);
    let args: Vec<String> = items.iter().map(|s| s.to_string()).collect();
    session.handle_args(&args).unwrap();
    session
}

#[test]
fn banner_only_when_interactive() {
    assert_eq!(Rash::new(true).init(), Some("the rash you actually want!\n".to_string()));
    assert_eq!(Rash::new(false).init(), None);
}

#[test]
fn prompt_only_when_interactive() {
    assert_eq!(Rash::new(true).display_prompt(), Some("$ ".to_string()));
    assert_eq!(Rash::new(false).display_prompt(), None);
}

#[test]
fn command_string_true_returns_zero() {
    let mut session = Rash::new(true);
    let args = vec!["rash".to_string(), "-c".to_string(), "true".to_string()];
    let invocation = session.handle_args(&args).unwrap();
    assert_eq!(session.init(), None);
    let command = invocation.command.unwrap();
    assert_eq!(command, "true");
    let printed = session.execute(command, RunOutcome::Exited(0));
    assert_eq!(printed, None);
    assert_eq!(session.last_return, 0);
}

#[test]
fn true_then_false_sets_zero_then_one() {
    let mut session = Rash::new(false);
    session.execute("true".to_string(), RunOutcome::Exited(0));
    assert_eq!(session.last_return, 0);
    session.execute("false".to_string(), RunOutcome::Exited(1));
    assert_eq!(session.last_return, 1);
}

#[test]
fn exit_code_is_stored_verbatim() {
    let mut session = Rash::new(false);
    assert_eq!(session.execute("sh -c exit".to_string(), RunOutcome::Exited(42)), None);
    assert_eq!(session.last_return, 42);
    session.execute("x".to_string(), RunOutcome::Exited(255));
    assert_eq!(session.last_return, 255);
    session.execute("x".to_string(), RunOutcome::Exited(-1));
    assert_eq!(session.last_return, -1);
}

#[test]
fn missing_command_returns_127() {
    let mut session = Rash::new(true);
    let printed = session.execute(
        "nonexistent-cmd-xyz arg1".to_string(),
        RunOutcome::SpawnFailed(failure(Some(2), "No such file or directory (os error 2)")),
    );
    assert_eq!(printed, Some("rash: command not found: nonexistent-cmd-xyz".to_string()));
    assert_eq!(session.last_return, 127);
    assert_eq!(session.display_prompt(), Some("$ ".to_string()));
}

#[test]
fn missing_command_name_is_taken_from_the_trimmed_line() {
    let mut session = Rash::new(false);
    let printed = session.execute(
        "   nope  a b \n".to_string(),
        RunOutcome::SpawnFailed(failure(Some(2), "gone")),
    );
    assert_eq!(printed, Some("rash: command not found: nope".to_string()));
}

#[test]
fn other_spawn_error_returns_its_number() {
    let mut session = Rash::new(false);
    let printed = session.execute(
        "/etc/passwd".to_string(),
        RunOutcome::SpawnFailed(failure(Some(13), "Permission denied (os error 13)")),
    );
    assert_eq!(
        printed,
        Some("unexpected errno 13\n  err: Permission denied (os error 13)".to_string())
    );
    assert_eq!(session.last_return, 13);
}

#[test]
fn spawn_error_without_number_returns_one() {
    let mut session = Rash::new(false);
    let printed = session
        .execute("a\0b".to_string(), RunOutcome::SpawnFailed(failure(None, "nul byte found")));
    assert_eq!(printed, Some("err nul byte found".to_string()));
    assert_eq!(session.last_return, 1);
}

#[test]
fn execute_leaves_parameters_and_mode_alone() {
    let mut session = session_with_args(&["rash", "-i", "one", "two"]);
    let before = session.context.clone();
    session.execute("ls -l".to_string(), RunOutcome::Exited(3));
    assert_eq!(session.context, before);
    assert!(session.interactive);
    session.execute("nope".to_string(), RunOutcome::SpawnFailed(failure(Some(2), "gone")));
    assert_eq!(session.context, before);
    assert!(session.interactive);
    session.execute("nope".to_string(), RunOutcome::SpawnFailed(failure(None, "odd")));
    assert_eq!(session.context, before);
}

#[test]
fn missing_script_is_fatal_with_127() {
    let mut session = Rash::new(true);
    let args = vec!["rash".to_string(), "no-such-script.sh".to_string()];
    let invocation = session.handle_args(&args).unwrap();
    let path = invocation.script.unwrap();
    let fatal = session
        .load_input_file(&path, Err(failure(Some(2), "No such file or directory (os error 2)")))
        .unwrap_err();
    assert_eq!(fatal.code, 127);
    assert_eq!(fatal.diagnostic, "rash: no such file or directory: no-such-script.sh");
    assert_eq!(session.last_return, 127);
    assert!(!session.interactive);
}

#[test]
fn unreadable_script_is_fatal_with_its_number() {
    let mut session = Rash::new(true);
    let fatal = session
        .load_input_file("/root/secret", Err(failure(Some(13), "Permission denied (os error 13)")))
        .unwrap_err();
    assert_eq!(fatal.code, 13);
    assert_eq!(fatal.diagnostic, "unexpected errno 13\n  err: Permission denied (os error 13)");
    assert_eq!(session.last_return, 13);
}

#[test]
fn script_error_without_number_is_fatal_with_two() {
    let mut session = Rash::new(true);
    let fatal = session.load_input_file("x", Err(failure(None, "odd failure"))).unwrap_err();
    assert_eq!(fatal.code, 2);
    assert_eq!(fatal.diagnostic, "err odd failure");
    assert_eq!(session.last_return, 2);
}

#[test]
fn opened_script_ends_interactive_mode() {
    let mut session = Rash::new(true);
    session.last_return = 5;
    assert!(session.load_input_file("job.sh", Ok(())).is_ok());
    assert!(!session.interactive);
    assert_eq!(session.last_return, 5);
    assert!(session.context.is_empty());
}

#[test]
fn classify_failure_tells_the_three_classes_apart() {
    let (code, line) = classify_failure(&failure(Some(2), "m"), 9, "missing".to_string());
    assert_eq!((code, line.as_str()), (127, "missing"));
    let (code, line) = classify_failure(&failure(Some(-7), "m"), 9, "missing".to_string());
    assert_eq!((code, line.as_str()), (-7, "unexpected errno -7\n  err: m"));
    let (code, line) = classify_failure(&failure(None, "m"), 9, "missing".to_string());
    assert_eq!((code, line.as_str()), (9, "err m"));
}

#[test]
fn read_line_trims_and_reports_raw_count() {
    let mut session = Rash::new(false);
    let mut buff = "  echo hi  \n".to_string();
    let out = session.read_line(&mut buff, Ok(12));
    assert!(matches!(out, Ok(12)));
    assert_eq!(buff, "echo hi");
}

#[test]
fn read_line_of_blank_line_leaves_empty_buffer() {
    let mut session = Rash::new(false);
    let mut buff = "\n".to_string();
    assert!(matches!(session.read_line(&mut buff, Ok(1)), Ok(1)));
    assert_eq!(buff, "");
}

#[test]
fn read_line_reports_end_of_input() {
    let mut session = Rash::new(false);
    session.last_return = 3;
    let mut buff = String::new();
    let out = session.read_line(&mut buff, Ok(0));
    assert!(matches!(out, Err(RashError::Eof)));
    assert_eq!(buff, "");
    assert_eq!(session.last_return, 3);
}

#[test]
fn read_line_passes_failures_on() {
    let mut session = Rash::new(false);
    let mut buff = " partial ".to_string();
    let out = session.read_line(&mut buff, Err(failure(Some(5), "Input/output error")));
    match out {
        Err(RashError::Io(inner)) => {
            assert_eq!(inner.code, Some(5));
            assert_eq!(inner.message, "Input/output error");
        },
        _ => panic!("an input failure was expected"),
    }
    assert_eq!(buff, " partial ");
}

#[test]
fn read_line_twice_changes_nothing_more() {
    let mut session = Rash::new(false);
    let mut buff = "\t ls  -a \n".to_string();
    session.read_line(&mut buff, Ok(10)).unwrap();
    let once = buff.clone();
    session.read_line(&mut buff, Ok(10)).unwrap();
    assert_eq!(buff, once);
    assert_eq!(buff, "ls  -a");
}

#[test]
fn end_of_input_ends_the_loop_and_keeps_last_return() {
    let mut session = Rash::new(true);
    session.execute("false".to_string(), RunOutcome::Exited(1));
    let mut buff = String::new();
    let out = session.read_line(&mut buff, Ok(0));
    assert!(matches!(session.after_read(&out, &buff), LoopAction::Terminate));
    assert_eq!(session.last_return, 1);
}

#[test]
fn read_failure_is_reported_and_the_loop_goes_on() {
    let session = Rash::new(true);
    let out = Err(RashError::Io(failure(Some(5), "Input/output error")));
    match session.after_read(&out, "stale") {
        LoopAction::Report(line) => assert_eq!(line, "unhandled err Input/output error"),
        _ => panic!("a report was expected"),
    }
}

#[test]
fn empty_line_is_skipped_and_full_line_dispatched() {
    let session = Rash::new(true);
    assert!(matches!(session.after_read(&Ok(1), ""), LoopAction::Skip));
    assert!(matches!(session.after_read(&Ok(3), "ls"), LoopAction::Dispatch));
    assert!(matches!(session.after_read(&Ok(3), "é"), LoopAction::Dispatch));
}

#[test]
fn error_texts() {
    assert_eq!(RashError::Eof.message(), "EOF");
    assert_eq!(RashError::Eof.description(), "EOF");
    let io = RashError::Io(failure(Some(5), "Input/output error"));
    assert_eq!(io.message(), "Input/output error");
    assert_eq!(io.description(), "Input/output error");
}

#[test]
fn error_from_failure_is_io() {
    let error = RashError::from(failure(None, "broken"));
    match error {
        RashError::Io(inner) => {
            assert_eq!(inner.code, None);
            assert_eq!(inner.message, "broken");
        },
        RashError::Eof => panic!("an input failure was expected"),
    }
}
