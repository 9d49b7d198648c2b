use cyclonedds::content_filter::sibling_topic_name;
use cyclonedds::wasm_connect::{connect_step, ConnectAction, ConnectEvent, ConnectState};
use cyclonedds::DdsError;

#[test]
fn sibling_name_appends_cft_and_handle() {
    assert_eq!(sibling_topic_name(b"Chatter", 42).unwrap(), "Chatter_cft_42");
    assert_eq!(sibling_topic_name(b"T", -7).unwrap(), "T_cft_-7");
    assert_eq!(sibling_topic_name(&[0x41, 0xff], 1).unwrap(), "A\u{fffd}_cft_1");
}

#[test]
fn sibling_name_with_nul_is_refused() {
    assert!(matches!(sibling_topic_name(b"a\0b", 3), Err(DdsError::BadParameter(_))));
}

#[test]
fn open_resolves_once() {
    let mut s = ConnectState::new();
    assert!(matches!(connect_step(&mut s, ConnectEvent::Opened), ConnectAction::Resolve));
    assert!(matches!(connect_step(&mut s, ConnectEvent::Closed), ConnectAction::Ignore));
    assert!(matches!(connect_step(&mut s, ConnectEvent::TimedOut), ConnectAction::Ignore));
    assert_eq!(s, ConnectState { pending: false, settled: true });
}

#[test]
fn close_before_open_rejects_with_typed_text() {
    let mut s = ConnectState::new();
    match connect_step(&mut s, ConnectEvent::Closed) {
        ConnectAction::Reject(t) => assert_eq!(t, "connection closed before open"),
        other => panic!("unexpected {other:?}"),
    }
    assert!(matches!(connect_step(&mut s, ConnectEvent::Opened), ConnectAction::Ignore));
}

#[test]
fn error_rejects_with_its_reason() {
    let mut s = ConnectState::new();
    match connect_step(&mut s, ConnectEvent::Errored("WebSocket error: x".to_string())) {
        ConnectAction::Reject(t) => assert_eq!(t, "WebSocket error: x"),
        other => panic!("unexpected {other:?}"),
    }
}

#[test]
fn timeout_closes_and_rejects_then_ignores_open() {
    let mut s = ConnectState::new();
    match connect_step(&mut s, ConnectEvent::TimedOut) {
        ConnectAction::CloseAndReject(t) => {
            assert_eq!(t, "timeout: bridge WebSocket did not open in time")
        }
        other => panic!("unexpected {other:?}"),
    }
    assert!(matches!(connect_step(&mut s, ConnectEvent::Opened), ConnectAction::Ignore));
    assert!(matches!(connect_step(&mut s, ConnectEvent::TimedOut), ConnectAction::Ignore));
}
