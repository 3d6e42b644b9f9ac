use nu_plugin_bg::{
    describe, exit_failed_error, on_captured, on_spawned, plan_launch, AfterSpawn, CaptureReport,
    ExitReport, Implementation, Launch, LaunchErrorKind, LaunchRequest, LaunchResult, OutputMode,
    SourceSpan, SpawnEvent,
};

fn span() -> SourceSpan {
    SourceSpan { start: 3, end: 8 }
}

fn request(command: &str, arguments: Option<Vec<&str>>, debug: bool, mode: OutputMode) -> LaunchRequest {
    LaunchRequest {
        command: command.to_string(),
        command_span: span(),
        arguments: arguments.map(|a| a.into_iter().map(|s| s.to_string()).collect()),
        debug,
        mode,
    }
}

fn planned(command: &str, arguments: Option<Vec<&str>>, mode: OutputMode) -> Launch {
    match plan_launch(&request(command, arguments, false, mode)) {
        Ok(l) => l,
        Err(e) => panic!("refused: {}", e.message),
    }
}

fn started(pid: u32) -> SpawnEvent {
    SpawnEvent::Started { pid, stdout_piped: true, stderr_piped: true }
}

fn capture(stdout: &[u8], stderr: &[u8], success: bool, status: &str) -> CaptureReport {
    CaptureReport {
        stdout: Ok(stdout.to_vec()),
        stderr: Ok(stderr.to_vec()),
        exit: Ok(ExitReport { success, status: status.to_string() }),
    }
}

const CAPTURE: OutputMode = OutputMode::CaptureOutput { return_pid: false };

#[test]
fn command_name_and_usage() {
    let c = Implementation::new();
    assert_eq!(c.name(), "bg");
    assert_eq!(c.usage(), "Start a process in the background.");
}

#[test]
fn pid_switch_selects_pid_mode() {
    let c = Implementation::new();
    let r = c.request("sleep".to_string(), span(), Some(vec!["5".to_string()]), true, true);
    assert_eq!(r.mode, OutputMode::ReturnPid);
    assert_eq!(r.command, "sleep");
    assert_eq!(r.arguments, Some(vec!["5".to_string()]));
    assert!(r.debug);
    let r = c.request("sleep".to_string(), span(), None, false, false);
    assert_eq!(r.mode, OutputMode::Detached);
    assert_eq!(r.arguments, None);
}

#[test]
fn empty_command_is_refused() {
    for mode in [OutputMode::Detached, OutputMode::ReturnPid, CAPTURE] {
        let e = plan_launch(&request("", Some(vec!["x"]), true, mode)).unwrap_err();
        assert_eq!(e.kind, LaunchErrorKind::NoCommand);
        assert_eq!(e.span, span());
    }
}

#[test]
fn arguments_pass_through_as_single_tokens() {
    let l = planned("printf", Some(vec!["a b", "$(whoami); rm -rf /", "'q'", ""]), OutputMode::Detached);
    assert_eq!(l.program, "printf");
    assert_eq!(l.arguments, vec!["a b", "$(whoami); rm -rf /", "'q'", ""]);
    let l = planned("true", None, OutputMode::Detached);
    assert!(l.arguments.is_empty());
}

#[test]
fn launch_gets_own_process_group() {
    for mode in [OutputMode::Detached, OutputMode::ReturnPid, CAPTURE] {
        let l = planned("sleep", Some(vec!["10"]), mode);
        assert!(l.own_process_group);
        assert_eq!(l.capture_output, mode == CAPTURE);
    }
}

#[test]
fn debug_line_names_command_and_arguments() {
    let l = plan_launch(&request("echo", Some(vec!["a b", "x\"y"]), true, OutputMode::Detached)).unwrap();
    assert_eq!(l.name, "'echo' with args [\"a b\", \"x\\\"y\"]");
    assert_eq!(l.diagnostic, Some("Starting process 'echo' with args [\"a b\", \"x\\\"y\"]".to_string()));
    let l = plan_launch(&request("sleep", None, true, OutputMode::Detached)).unwrap();
    assert_eq!(l.diagnostic, Some("Starting process 'sleep'".to_string()));
    let l = plan_launch(&request("sleep", None, false, OutputMode::Detached)).unwrap();
    assert_eq!(l.diagnostic, None);
}

#[test]
fn describe_quotes_command() {
    assert_eq!(describe("ls", None), "'ls'");
    assert_eq!(describe("ls", Some("[\"-l\"]")), "'ls' with args [\"-l\"]");
}

#[test]
fn detached_launch_finishes_at_spawn() {
    let l = planned("true", None, OutputMode::Detached);
    match on_spawned(&l, SpawnEvent::Started { pid: 77, stdout_piped: false, stderr_piped: false }) {
        AfterSpawn::Finished(Ok(r)) => assert_eq!(r, LaunchResult::Empty),
        other => panic!("unexpected {:?}", other),
    }
}

#[test]
fn pid_launch_returns_spawned_pid() {
    let l = planned("true", None, OutputMode::ReturnPid);
    match on_spawned(&l, SpawnEvent::Started { pid: 4242, stdout_piped: false, stderr_piped: false }) {
        AfterSpawn::Finished(Ok(r)) => assert_eq!(r, LaunchResult::Pid(4242)),
        other => panic!("unexpected {:?}", other),
    }
}

#[test]
fn spawn_failure_carries_os_error() {
    let l = planned("nosuchprog", Some(vec!["-x"]), OutputMode::ReturnPid);
    let event = SpawnEvent::Failed { os_error: "No such file or directory (os error 2)".to_string() };
    match on_spawned(&l, event) {
        AfterSpawn::Finished(Err(e)) => {
            assert_eq!(e.kind, LaunchErrorKind::SpawnFailed);
            assert_eq!(e.label, "Could not start process");
            assert_eq!(
                e.message,
                "Could not start process 'nosuchprog' with args [\"-x\"]: No such file or directory (os error 2)"
            );
            assert_eq!(e.span, span());
        }
        other => panic!("unexpected {:?}", other),
    }
}

#[test]
fn capture_awaits_output() {
    let l = planned("echo", Some(vec!["hello"]), CAPTURE);
    match on_spawned(&l, started(9)) {
        AfterSpawn::AwaitCapture { pid } => assert_eq!(pid, 9),
        other => panic!("unexpected {:?}", other),
    }
}

#[test]
fn capture_without_pipes_fails() {
    let l = planned("echo", None, CAPTURE);
    match on_spawned(&l, SpawnEvent::Started { pid: 1, stdout_piped: false, stderr_piped: true }) {
        AfterSpawn::Finished(Err(e)) => {
            assert_eq!(e.kind, LaunchErrorKind::StdoutCaptureUnavailable);
            assert_eq!(e.message, "Could not capture stdout of process 'echo'");
        }
        other => panic!("unexpected {:?}", other),
    }
    match on_spawned(&l, SpawnEvent::Started { pid: 1, stdout_piped: true, stderr_piped: false }) {
        AfterSpawn::Finished(Err(e)) => {
            assert_eq!(e.kind, LaunchErrorKind::StderrCaptureUnavailable);
            assert_eq!(e.label, "Could not capture stderr of process");
        }
        other => panic!("unexpected {:?}", other),
    }
}

#[test]
fn capture_hello_gives_text() {
    let l = planned("echo", Some(vec!["-n", "hello"]), CAPTURE);
    let r = on_captured(&l, 5, capture(b"hello", b"", true, "exit status: 0")).unwrap();
    assert_eq!(r, LaunchResult::Text("hello".to_string()));
}

#[test]
fn capture_of_nothing_gives_empty() {
    let l = planned("true", None, CAPTURE);
    let r = on_captured(&l, 5, capture(b"", b"noise", true, "exit status: 0")).unwrap();
    assert_eq!(r, LaunchResult::Empty);
}

#[test]
fn capture_decodes_invalid_utf8_lossily() {
    let l = planned("cat", None, CAPTURE);
    let r = on_captured(&l, 5, capture(&[b'o', 0xff, b'k'], b"", true, "exit status: 0")).unwrap();
    assert_eq!(r, LaunchResult::Text("o\u{FFFD}k".to_string()));
}

#[test]
fn capture_with_pid_prefers_pid() {
    let l = planned("echo", Some(vec!["hello"]), OutputMode::CaptureOutput { return_pid: true });
    let r = on_captured(&l, 31, capture(b"hello\n", b"", true, "exit status: 0")).unwrap();
    assert_eq!(r, LaunchResult::Pid(31));
}

#[test]
fn failed_exit_reports_stderr() {
    let l = planned("sh", Some(vec!["-c", "echo boom >&2; exit 3"]), CAPTURE);
    let e = on_captured(&l, 5, capture(b"", b"boom", false, "exit status: 3")).unwrap_err();
    assert_eq!(e.kind, LaunchErrorKind::NonZeroExit);
    assert!(e.message.contains("boom"));
    assert_eq!(e.label, "Process did not exit successfully");
    assert_eq!(
        e.message,
        "Process 'sh' with args [\"-c\", \"echo boom >&2; exit 3\"] did not exit successfully. Exit code: exit status: 3. Error: boom"
    );
}

#[test]
fn failed_exit_without_stderr_gives_status_only() {
    let l = planned("false", None, CAPTURE);
    let e = on_captured(&l, 5, capture(b"out", b"", false, "exit status: 1")).unwrap_err();
    assert_eq!(e.kind, LaunchErrorKind::NonZeroExit);
    assert_eq!(e.message, "Process 'false' did not exit successfully. Exit code: exit status: 1");
}

#[test]
fn exit_error_appends_given_text() {
    let e = exit_failed_error("'x'", "exit status: 2", "bad", span());
    assert_eq!(e.message, "Process 'x' did not exit successfully. Exit code: exit status: 2. Error: bad");
    let e = exit_failed_error("'x'", "exit status: 2", "", span());
    assert_eq!(e.message, "Process 'x' did not exit successfully. Exit code: exit status: 2");
}

#[test]
fn read_and_wait_failures() {
    let l = planned("cat", None, CAPTURE);
    let report = CaptureReport {
        stdout: Err("broken pipe".to_string()),
        stderr: Ok(vec![]),
        exit: Ok(ExitReport { success: true, status: "exit status: 0".to_string() }),
    };
    let e = on_captured(&l, 5, report).unwrap_err();
    assert_eq!(e.kind, LaunchErrorKind::StdoutCaptureUnavailable);
    assert_eq!(e.message, "Could not read stdout of process 'cat'. Error: broken pipe");

    let report = CaptureReport {
        stdout: Ok(vec![]),
        stderr: Err("interrupted".to_string()),
        exit: Ok(ExitReport { success: true, status: "exit status: 0".to_string() }),
    };
    let e = on_captured(&l, 5, report).unwrap_err();
    assert_eq!(e.kind, LaunchErrorKind::StderrCaptureUnavailable);
    assert_eq!(e.label, "Could not read stderr of process");

    let report = CaptureReport {
        stdout: Ok(b"x".to_vec()),
        stderr: Ok(vec![]),
        exit: Err("no child processes".to_string()),
    };
    let e = on_captured(&l, 5, report).unwrap_err();
    assert_eq!(e.kind, LaunchErrorKind::WaitFailed);
    assert_eq!(e.message, "Could not wait for process 'cat'. Error: no child processes");
}
