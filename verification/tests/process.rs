use codex_workflow::integrations::fornax::redaction::Redactor;
use codex_workflow::integrations::process::bounded_line;
use codex_workflow::integrations::process::BoundedRead;
use codex_workflow::integrations::process::PollAction;
use codex_workflow::integrations::process::ProcessError;
use codex_workflow::integrations::process::ProcessRequest;
use codex_workflow::integrations::process::ProcessRunner;

fn request(executable: &str, cwd: &str) -> ProcessRequest {
    ProcessRequest {
        executable: executable.to_string(),
        args: vec![],
        cwd: cwd.to_string(),
        env: vec![],
        redactions: vec![],
    }
}

fn read(bytes: &[u8]) -> BoundedRead {
    BoundedRead { bytes: bytes.to_vec(), exceeded: false }
}

#[test]
fn requests_need_absolute_paths() {
    let runner = ProcessRunner::new(1000, 16, 16);
    assert_eq!(runner.poll_interval_ms(), 5);
    assert_eq!(runner.check_request(&request("/bin/true", "/tmp")), Ok(()));
    assert_eq!(runner.check_request(&request("true", "/tmp")), Err(ProcessError::ExecutableIsNotAbsolute));
    assert_eq!(runner.check_request(&request("/bin/true", "tmp")), Err(ProcessError::WorkingDirectoryIsNotAbsolute));
}

#[test]
fn polling_cancels_then_times_out() {
    let runner = ProcessRunner::new(1000, 16, 16);
    assert_eq!(runner.poll_action(false, 10, true), PollAction::Collect);
    assert_eq!(runner.poll_action(true, 10, false), PollAction::Cancel);
    assert_eq!(runner.poll_action(false, 1001, false), PollAction::TimeOut);
    assert_eq!(runner.poll_action(false, 10, false), PollAction::Wait);
}

#[test]
fn finished_processes_report_redacted_bounded_diagnostics() {
    let runner = ProcessRunner::new(1000, 16, 64);
    let redactor = Redactor::new(vec!["s3cret".to_string()]);
    let ok = runner.finish(&redactor, true, Some(0), read(b"out"), read(b"warn s3cret")).unwrap();
    assert_eq!(ok.stdout, b"out".to_vec());
    assert_eq!(ok.stderr_diagnostic, "warn [REDACTED]");
    let failed = runner.finish(&redactor, false, Some(3), read(b""), read(b"\n  \nboom s3cret\nmore"));
    assert_eq!(
        failed,
        Err(ProcessError::Exit { status_code: 3, diagnostic: "boom [REDACTED]".to_string() })
    );
    let killed = runner.finish(&redactor, false, None, read(b""), read(b""));
    assert_eq!(
        killed,
        Err(ProcessError::Exit { status_code: -1, diagnostic: "no diagnostic was returned".to_string() })
    );
    let lossy = runner.finish(&redactor, true, Some(0), read(b""), read(&[b'a', 0xff, b'b'])).unwrap();
    assert_eq!(lossy.stderr_diagnostic, "a\u{fffd}b");
    let over = BoundedRead { bytes: vec![], exceeded: true };
    assert_eq!(
        runner.finish(&redactor, true, Some(0), over, read(b"")),
        Err(ProcessError::OutputLimit { stream: "stdout", limit: 16 })
    );
}

#[test]
fn bounded_reads_keep_at_most_the_limit() {
    let mut r = BoundedRead::new();
    r.accept(b"abcd", 6);
    r.accept(b"efgh", 6);
    assert_eq!(r.bytes, b"abcdef".to_vec());
    assert!(r.exceeded);
    assert_eq!(bounded_line(&"x".repeat(600)).len(), 512);
}
