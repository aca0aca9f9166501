use pty_session::error::{settle, PtyError, PtyErrorKind};
use pty_session::forward::{ForwardAction, ForwardEvent, ForwardPhase, Forwarder};
use pty_session::geometry::pty_size;
use pty_session::kill::{kill_outcome, needs_termination, ShellStatus};
use pty_session::launch::{build_command, launch_plan};
use pty_session::metadata::PtyMetadata;
use pty_session::payload::{single_string_payload, string_payload};
use pty_session::process_table::{children_of, has_no_children, shell_children, ProcessEntry};
use pty_session::readiness::{
    ReadinessAction, ReadinessDetector, ReadinessEvent, ReadinessPhase, POLL_INTERVAL_MS,
};

fn run_snapshots(counts: &[usize]) -> (ReadinessDetector, Vec<ReadinessAction>) {
    let mut d = ReadinessDetector::new();
    let mut actions = Vec::new();
    for &c in counts {
        actions.push(d.on_event(ReadinessEvent::Snapshot(c)));
    }
    (d, actions)
}

#[test]
fn single_quiet_tick_does_not_confirm() {
    let (d, actions) = run_snapshots(&[2, 0, 1, 3]);
    assert_eq!(d.phase, ReadinessPhase::Polling(0));
    assert!(!d.is_finished());
    assert!(actions.iter().all(|a| *a == ReadinessAction::Sleep(POLL_INTERVAL_MS)));
}

#[test]
fn two_quiet_ticks_then_child_resets() {
    let (d, _) = run_snapshots(&[0, 0, 1]);
    assert_eq!(d.phase, ReadinessPhase::Polling(0));
    let (d, _) = run_snapshots(&[0, 0]);
    assert_eq!(d.phase, ReadinessPhase::Polling(2));
}

#[test]
fn third_quiet_tick_confirms() {
    let (d, actions) = run_snapshots(&[1, 0, 0, 0]);
    assert_eq!(d.phase, ReadinessPhase::ReadyConfirmed);
    assert_eq!(actions[1], ReadinessAction::Sleep(300));
    assert_eq!(actions[2], ReadinessAction::Sleep(300));
    assert_eq!(actions[3], ReadinessAction::Succeed);
}

#[test]
fn poll_cycle_asks_status_then_snapshot() {
    let mut d = ReadinessDetector::new();
    assert_eq!(d.on_event(ReadinessEvent::Clock(0)), ReadinessAction::QueryStatus);
    assert_eq!(d.on_event(ReadinessEvent::StillRunning), ReadinessAction::TakeSnapshot);
    assert_eq!(d.on_event(ReadinessEvent::Snapshot(4)), ReadinessAction::Sleep(300));
    assert_eq!(d.on_event(ReadinessEvent::Clock(5000)), ReadinessAction::QueryStatus);
}

#[test]
fn budget_exhausted_succeeds_softly() {
    let mut d = ReadinessDetector::new();
    d.on_event(ReadinessEvent::Snapshot(1));
    assert_eq!(d.on_event(ReadinessEvent::Clock(5001)), ReadinessAction::Succeed);
    assert_eq!(d.phase, ReadinessPhase::TimedOut);
    assert!(d.is_finished());
    assert_eq!(d.on_event(ReadinessEvent::Snapshot(0)), ReadinessAction::Succeed);
}

#[test]
fn exited_shell_fails_immediately() {
    let mut d = ReadinessDetector::new();
    assert_eq!(d.on_event(ReadinessEvent::Clock(0)), ReadinessAction::QueryStatus);
    assert_eq!(
        d.on_event(ReadinessEvent::Exited),
        ReadinessAction::Fail(PtyErrorKind::ShellExitedDuringWait)
    );
    assert_eq!(d.phase, ReadinessPhase::ShellExited);
    assert_eq!(
        d.on_event(ReadinessEvent::Clock(10)),
        ReadinessAction::Fail(PtyErrorKind::ShellExitedDuringWait)
    );
}

#[test]
fn children_are_found_by_parent() {
    let table = vec![
        ProcessEntry { pid: 1, parent: None },
        ProcessEntry { pid: 40, parent: Some(1) },
        ProcessEntry { pid: 41, parent: Some(40) },
        ProcessEntry { pid: 42, parent: Some(40) },
        ProcessEntry { pid: 43, parent: Some(7) },
    ];
    assert_eq!(children_of(40, &table), vec![41, 42]);
    assert!(!has_no_children(40, &table));
    assert!(has_no_children(41, &table));
    assert!(has_no_children(3, &Vec::new()));
}

#[test]
fn snapshot_of_unknown_process_has_no_children() {
    assert!(shell_children(u32::MAX).is_empty());
}

#[test]
fn forwarding_writes_chunks_in_order() {
    let mut f = Forwarder::new();
    let mut written: Vec<u8> = Vec::new();
    for chunk in [&b"echo "[..], &b"hi"[..], &b"\n"[..]] {
        match f.on_event(ForwardEvent::Received(bytes::Bytes::copy_from_slice(chunk))) {
            ForwardAction::WriteAndFlush(b) => written.extend_from_slice(&b),
            other => panic!("unexpected action {:?}", other),
        }
    }
    assert_eq!(written, b"echo hi\n".to_vec());
    assert!(f.is_running());
}

#[test]
fn closed_queue_releases_writer() {
    let mut f = Forwarder::new();
    assert!(matches!(f.on_event(ForwardEvent::QueueClosed), ForwardAction::ReleaseWriter));
    assert_eq!(f.phase, ForwardPhase::Closed);
    assert!(matches!(
        f.on_event(ForwardEvent::Received(bytes::Bytes::from_static(b"late"))),
        ForwardAction::Idle
    ));
}

#[test]
fn write_failure_is_recorded() {
    let mut f = Forwarder::new();
    assert!(matches!(f.on_event(ForwardEvent::WriteFailed), ForwardAction::Abort));
    assert!(f.has_faulted());
    assert!(!f.is_running());
}

#[test]
fn resize_geometry_is_exact() {
    let s = pty_size(24, 80);
    assert_eq!((s.rows, s.cols, s.pixel_width, s.pixel_height), (24, 80, 0, 0));
    let s = pty_size(1, 1);
    assert_eq!((s.rows, s.cols), (1, 1));
    let s = pty_size(u16::MAX, 0);
    assert_eq!((s.rows, s.cols), (u16::MAX, 0));
}

#[test]
fn kill_of_exited_shell_succeeds() {
    assert!(!needs_termination(ShellStatus::Exited));
    assert!(kill_outcome(ShellStatus::Exited, Err("No such process".to_string())).is_ok());
}

#[test]
fn kill_of_running_shell_reports_signal_failure() {
    assert!(needs_termination(ShellStatus::Running));
    assert!(kill_outcome(ShellStatus::Running, Ok(())).is_ok());
    let e = kill_outcome(ShellStatus::Running, Err("denied".to_string())).unwrap_err();
    assert_eq!(e.kind, PtyErrorKind::KillFailure);
    assert_eq!(e.detail, "denied");
}

#[test]
fn settle_keeps_kind_and_text() {
    assert!(settle(PtyErrorKind::ResizeFailure, Ok(())).is_ok());
    let e: PtyError = settle(PtyErrorKind::ResizeFailure, Err("bad fd".to_string())).unwrap_err();
    assert_eq!(e.kind, PtyErrorKind::ResizeFailure);
    assert_eq!(e.detail, "bad fd");
    let e = PtyError::new(PtyErrorKind::AllocationFailure, "no pty".to_string());
    assert_eq!(e.kind, PtyErrorKind::AllocationFailure);
}

#[test]
fn launch_with_shell_is_interactive() {
    let env = vec![("EDITOR".to_string(), "vi".to_string())];
    let plan = launch_plan(Some("/tmp".to_string()), &env, Some("/bin/zsh".to_string()));
    assert_eq!(plan.program.as_deref(), Some("/bin/zsh"));
    assert_eq!(plan.args, vec!["-i".to_string()]);
    assert_eq!(plan.cwd.as_deref(), Some("/tmp"));
    assert_eq!(
        plan.env,
        vec![
            ("ATUIN_DESKTOP_PTY".to_string(), "true".to_string()),
            ("TERM".to_string(), "xterm-256color".to_string()),
            ("EDITOR".to_string(), "vi".to_string()),
        ]
    );
}

#[test]
fn launch_without_shell_uses_default() {
    let plan = launch_plan(None, &Vec::new(), None);
    assert!(plan.program.is_none());
    assert!(plan.args.is_empty());
    assert!(plan.cwd.is_none());
    assert_eq!(plan.env.len(), 2);
    let plan = launch_plan(None, &Vec::new(), Some(String::new()));
    assert!(plan.program.is_none());
    assert!(plan.args.is_empty());
}

#[test]
fn caller_env_overrides_injected() {
    let env = vec![("TERM".to_string(), "dumb".to_string())];
    let plan = launch_plan(None, &env, None);
    let mut effective = std::collections::HashMap::new();
    for (k, v) in &plan.env {
        effective.insert(k.clone(), v.clone());
    }
    assert_eq!(effective.get("TERM").map(|s| s.as_str()), Some("dumb"));
    assert_eq!(effective.get("ATUIN_DESKTOP_PTY").map(|s| s.as_str()), Some("true"));
}

#[test]
fn string_payload_is_utf8() {
    assert_eq!(&string_payload("ls -la")[..], b"ls -la");
    assert_eq!(&string_payload("é")[..], &[0xc3, 0xa9]);
    assert!(string_payload("").is_empty());
}

#[test]
fn single_string_payload_ends_with_eot() {
    assert_eq!(&single_string_payload("exit")[..], b"exit\x04");
    assert_eq!(&single_string_payload("")[..], &[4]);
}

#[test]
fn metadata_copy_is_equal() {
    let m = PtyMetadata { pid: 7, runbook: 9, block: "b1".to_string(), created_at: 1234 };
    let c = m.clone();
    assert_eq!((c.pid, c.runbook, c.block.as_str(), c.created_at), (7, 9, "b1", 1234));
    let d = m.duplicate();
    assert_eq!(d.block, "b1");
}

#[test]
fn command_follows_plan() {
    let env = vec![
        ("TERM".to_string(), "dumb".to_string()),
        ("EDITOR".to_string(), "vi".to_string()),
    ];
    let plan = launch_plan(Some("/work".to_string()), &env, Some("/bin/bash".to_string()));
    let cmd = build_command(&plan);
    let argv: Vec<String> =
        cmd.get_argv().iter().map(|a| a.to_string_lossy().into_owned()).collect();
    assert_eq!(argv, vec!["/bin/bash".to_string(), "-i".to_string()]);
    assert_eq!(cmd.get_cwd().map(|d| d.to_string_lossy().into_owned()), Some("/work".to_string()));
    assert_eq!(cmd.get_env("EDITOR").map(|v| v.to_string_lossy().into_owned()), Some("vi".to_string()));
    assert_eq!(cmd.get_env("TERM").map(|v| v.to_string_lossy().into_owned()), Some("dumb".to_string()));
    assert_eq!(
        cmd.get_env("ATUIN_DESKTOP_PTY").map(|v| v.to_string_lossy().into_owned()),
        Some("true".to_string())
    );
}

#[test]
fn default_shell_command_has_empty_argv() {
    let plan = launch_plan(None, &Vec::new(), None);
    let cmd = build_command(&plan);
    assert!(cmd.is_default_prog());
    assert!(cmd.get_cwd().is_none());
    assert_eq!(
        cmd.get_env("TERM").map(|v| v.to_string_lossy().into_owned()),
        Some("xterm-256color".to_string())
    );
}
