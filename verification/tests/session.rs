use devmgr::keys::{KeyCode, KeyEvent, KeyEventKind, KeyModifiers};
use devmgr::session::{
    event_fits_stage, exec_begin, exec_step, exit_status_code, terminal_event_action, ExecAction, ExecEvent,
    ExecFailure, ExecStage, TerminalAction, TerminalEvent,
};
use devmgr::terminal::DockerError;

#[test]
fn a_session_runs_to_the_exit_code() {
    let (stage, action) = exec_begin();
    assert_eq!((stage, action), (ExecStage::Creating, ExecAction::CreateExec));
    let (stage, action) = exec_step(stage, ExecEvent::Created);
    assert_eq!(action, ExecAction::StartExec);
    let (stage, action) = exec_step(stage, ExecEvent::Started { attached: true });
    assert_eq!(action, ExecAction::ResizeToTerminal);
    let (stage, action) = exec_step(stage, ExecEvent::Resized);
    assert_eq!(action, ExecAction::ForwardIo);
    let (stage, action) = exec_step(stage, ExecEvent::Forwarded);
    assert_eq!(action, ExecAction::InspectExec);
    let (stage, action) = exec_step(stage, ExecEvent::Inspected { exit_code: Some(42) });
    assert_eq!((stage, action), (ExecStage::Finished, ExecAction::Finish(42)));
}

#[test]
fn a_stopped_command_may_refuse_the_resize() {
    let refusal = DockerError::ServerResponse {
        status_code: 500,
        message: "cannot resize a stopped container".to_string(),
    };
    assert_eq!(
        exec_step(ExecStage::Resizing, ExecEvent::ResizeFailed(refusal)),
        (ExecStage::Forwarding, ExecAction::ForwardIo)
    );
    assert_eq!(
        exec_step(ExecStage::Resizing, ExecEvent::ResizeFailed(DockerError::Other)),
        (ExecStage::Finished, ExecAction::Fail(ExecFailure::Client))
    );
}

#[test]
fn sessions_fail_without_attachment_or_exit_code() {
    assert_eq!(
        exec_step(ExecStage::Starting, ExecEvent::Started { attached: false }),
        (ExecStage::Finished, ExecAction::Fail(ExecFailure::NotAttached))
    );
    assert_eq!(
        exec_step(ExecStage::Inspecting, ExecEvent::Inspected { exit_code: None }),
        (ExecStage::Finished, ExecAction::Fail(ExecFailure::NoExitCode))
    );
    assert_eq!(
        exec_step(ExecStage::Forwarding, ExecEvent::Failed),
        (ExecStage::Finished, ExecAction::Fail(ExecFailure::Client))
    );
}

#[test]
fn terminal_events_become_writes_and_resizes() {
    match terminal_event_action(TerminalEvent::Key(KeyEvent::new(KeyCode::Up, KeyModifiers::none()))) {
        TerminalAction::Write(bytes) => assert_eq!(bytes, b"\x1b[A".to_vec()),
        other => panic!("unexpected {other:?}"),
    }
    let repeat = KeyEvent { code: KeyCode::Char('q'), modifiers: KeyModifiers::none(), kind: KeyEventKind::Repeat };
    match terminal_event_action(TerminalEvent::Key(repeat)) {
        TerminalAction::Write(bytes) => assert_eq!(bytes, vec![b'q']),
        other => panic!("unexpected {other:?}"),
    }
    let release = KeyEvent { code: KeyCode::Char('q'), modifiers: KeyModifiers::none(), kind: KeyEventKind::Release };
    assert!(matches!(terminal_event_action(TerminalEvent::Key(release)), TerminalAction::Ignore));
    assert!(matches!(
        terminal_event_action(TerminalEvent::Key(KeyEvent::new(KeyCode::CapsLock, KeyModifiers::none()))),
        TerminalAction::Ignore
    ));
    match terminal_event_action(TerminalEvent::Paste("héllo".to_string())) {
        TerminalAction::Write(bytes) => assert_eq!(bytes, "héllo".as_bytes().to_vec()),
        other => panic!("unexpected {other:?}"),
    }
    assert!(matches!(
        terminal_event_action(TerminalEvent::Resize { columns: 80, rows: 24 }),
        TerminalAction::Resize { columns: 80, rows: 24 }
    ));
    assert!(matches!(terminal_event_action(TerminalEvent::FocusLost), TerminalAction::Ignore));
}

#[test]
fn exit_status_of_the_program() {
    assert_eq!(exit_status_code(None), Some(0));
    assert_eq!(exit_status_code(Some(0)), Some(0));
    assert_eq!(exit_status_code(Some(130)), Some(130));
    assert_eq!(exit_status_code(Some(255)), Some(255));
    assert_eq!(exit_status_code(Some(256)), None);
    assert_eq!(exit_status_code(Some(-1)), None);
}

#[test]
fn events_fit_only_their_own_stage() {
    assert!(event_fits_stage(ExecStage::Creating, &ExecEvent::Created));
    assert!(!event_fits_stage(ExecStage::Resizing, &ExecEvent::Created));
    assert!(event_fits_stage(ExecStage::Inspecting, &ExecEvent::Inspected { exit_code: None }));
    assert!(!event_fits_stage(ExecStage::Forwarding, &ExecEvent::Resized));
    assert!(event_fits_stage(ExecStage::Starting, &ExecEvent::Failed));
    assert!(!event_fits_stage(ExecStage::Finished, &ExecEvent::Failed));
}
