use atac::payload::{next_payload_type, MqttPayload};

#[test]
fn utf8_bytes_are_text() {
    assert_eq!(MqttPayload::from_bytes("21.5 °C".as_bytes()), MqttPayload::Text(String::from("21.5 °C")));
    assert_eq!(MqttPayload::from_bytes(b""), MqttPayload::Text(String::new()));
}

#[test]
fn other_bytes_are_binary_and_kept_intact() {
    let bytes: Vec<u8> = (0..=255).collect();
    let payload = MqttPayload::from_bytes(&bytes);

    assert!(matches!(payload, MqttPayload::Binary(_)));
    assert_eq!(payload.to_bytes(), bytes);
}

#[test]
fn switching_type_keeps_the_text() {
    let text = MqttPayload::Text(String::from("hello"));
    let binary = next_payload_type(&text);

    assert_eq!(binary.to_bytes(), b"hello");
    assert_eq!(next_payload_type(&binary), text);
}

#[test]
fn binary_payloads_are_shown_as_byte_lists() {
    let payload = MqttPayload::Binary(vec![0, 255, 7].into_boxed_slice());
    assert_eq!(payload.to_content(), "[0, 255, 7]");
    assert_eq!(MqttPayload::Binary(Vec::new().into_boxed_slice()).to_content(), "[]");
    assert_eq!(payload.to_string(), "Binary");
    assert_eq!(MqttPayload::Text(String::from("a")).to_content(), "a");
    assert_eq!(MqttPayload::Text(String::from("a")).to_string(), "Text");
}

#[test]
fn invalid_utf8_switches_to_text_with_replacement_characters() {
    let binary = MqttPayload::Binary(vec![b'a', 0xFF, b'b'].into_boxed_slice());
    assert_eq!(next_payload_type(&binary), MqttPayload::Text(String::from("a\u{FFFD}b")));
}

#[test]
fn text_sent_as_bytes_is_read_back_as_the_same_text() {
    for text in ["", "hello", "21.5 °C", "日本"] {
        let payload = MqttPayload::Text(String::from(text));
        assert_eq!(MqttPayload::from_bytes(&payload.to_bytes()), payload);
    }
}

#[test]
fn received_bytes_are_kept() {
    for bytes in [vec![], vec![0xC3], vec![b'o', b'k'], vec![0xF0, 0x9F, 0x98, 0x80]] {
        assert_eq!(MqttPayload::from_bytes(&bytes).to_bytes(), bytes);
    }
}

#[test]
fn default_payload_is_empty_text() {
    assert_eq!(MqttPayload::default(), MqttPayload::Text(String::new()));
}
