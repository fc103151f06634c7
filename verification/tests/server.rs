use clipboard_syncer::sync::server::{ServerHandler, ServerState};

#[test]
fn test_lifecycle_and_restart() {
    let mut handler = ServerHandler::new();
    assert_eq!(handler.state(), ServerState::Stopped);
    assert_eq!(handler.port(), None);

    handler.begin_start(5000);
    assert_eq!(handler.state(), ServerState::Starting);
    handler.mark_running();
    assert_eq!(handler.state(), ServerState::Running);
    assert_eq!(handler.port(), Some(5000));

    assert!(handler.shutdown().is_ok());
    assert_eq!(handler.state(), ServerState::ShuttingDown);
    handler.mark_stopped();
    assert_eq!(handler.state(), ServerState::Stopped);
    assert_eq!(handler.port(), None);

    // Restart on a new port after the old one is released.
    handler.begin_start(5001);
    handler.mark_running();
    assert_eq!(handler.port(), Some(5001));
    assert!(handler.shutdown().is_ok());
    handler.mark_stopped();
}

#[test]
fn test_shutdown_without_running_server_fails() {
    let mut handler = ServerHandler::new();
    assert!(handler.shutdown().is_err());
    assert_eq!(handler.state(), ServerState::Stopped);
}
