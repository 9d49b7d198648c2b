use cyclonedds::wasm::WasmDdsError;

#[test]
fn display_names_every_error_variant() {
    assert_eq!(WasmDdsError::WebSocket("boom".into()).to_string(), "WebSocket error: boom");
    assert_eq!(
        WasmDdsError::Serialization("bad".into()).to_string(),
        "serialization error: bad"
    );
    assert_eq!(WasmDdsError::NotConnected.to_string(), "not connected");
    assert_eq!(WasmDdsError::TopicNotFound("T".into()).to_string(), "topic not found: T");
    assert_eq!(WasmDdsError::Timeout.to_string(), "timed out");
    assert_eq!(WasmDdsError::Unsupported("r".into()).to_string(), "unsupported: r");
}

fn participant() -> std::rc::Rc<cyclonedds::wasm::WasmDomainParticipant> {
    cyclonedds::wasm::WasmDomainParticipant::new("ws://127.0.0.1:9/dds").unwrap()
}

#[test]
fn participant_records_bridge_url_and_disconnects_quietly() {
    let p = participant();
    assert_eq!(p.url(), "ws://127.0.0.1:9/dds");
    p.disconnect();
    p.disconnect();
}

#[test]
fn topics_can_be_created_on_a_host_participant() {
    let p = participant();
    assert!(p.create_topic::<u8>("S").is_ok());
}
