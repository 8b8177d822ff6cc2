use terminal_core::relay::{interpret_message, relay_step, RelayAction, RelayEvent};

#[test]
fn structured_data_field_wins() {
    assert_eq!(interpret_message("{\"data\":\"ls -la\\n\"}"), "ls -la\n");
}

#[test]
fn structured_input_field_is_the_fallback() {
    assert_eq!(interpret_message("{\"input\":\"pwd\\n\"}"), "pwd\n");
    // `data` is preferred when both are present.
    assert_eq!(
        interpret_message("{\"data\":\"a\",\"input\":\"b\"}"),
        "a"
    );
}

#[test]
fn structured_payload_without_known_fields_passes_verbatim() {
    assert_eq!(interpret_message("{\"other\":1}"), "{\"other\":1}");
}

#[test]
fn malformed_json_passes_verbatim() {
    assert_eq!(interpret_message("{not json"), "{not json");
}

#[test]
fn plain_text_passes_verbatim() {
    assert_eq!(interpret_message("echo hi\n"), "echo hi\n");
    assert_eq!(interpret_message(""), "");
}

#[test]
fn non_string_field_does_not_count() {
    assert_eq!(interpret_message("{\"data\":7}"), "{\"data\":7}");
}

#[test]
fn text_event_writes_interpreted_input() {
    let action = relay_step(RelayEvent::Text("{\"data\":\"top\\n\"}".to_string()));
    assert_eq!(action, RelayAction::WriteInput(b"top\n".to_vec()));
}

#[test]
fn binary_event_writes_verbatim() {
    let action = relay_step(RelayEvent::Binary(vec![0x1b, b'[', b'A']));
    assert_eq!(action, RelayAction::WriteInput(vec![0x1b, b'[', b'A']));
}

#[test]
fn process_output_is_decoded_and_forwarded() {
    let action = relay_step(RelayEvent::ProcessOutput(b"hello".to_vec()));
    assert_eq!(action, RelayAction::SendOutput("hello".to_string()));
    let lossy = relay_step(RelayEvent::ProcessOutput(vec![0xff]));
    assert_eq!(lossy, RelayAction::SendOutput("\u{fffd}".to_string()));
}

#[test]
fn disconnection_events_tear_down() {
    assert_eq!(relay_step(RelayEvent::CloseRequested), RelayAction::Teardown);
    assert_eq!(relay_step(RelayEvent::InboundFailed), RelayAction::Teardown);
    assert_eq!(relay_step(RelayEvent::OutboundFailed), RelayAction::Teardown);
    assert_eq!(relay_step(RelayEvent::ProcessEof), RelayAction::Teardown);
}
