use atac::mqtt::{MqttCommand, MqttMessageContent, MqttRequest, MqttVersion, QoS, Sender};
use atac::payload::MqttPayload;
use atac::publish::{log_publish, mqtt_disconnect, mqtt_publish, publish_limit};

/// Returns the connection receiver to look at what would be sent to the broker
fn connected(version: MqttVersion, max_packet_size: u32) -> (MqttRequest, tokio::sync::mpsc::UnboundedReceiver<MqttCommand>) {
    let (sender, receiver) = tokio::sync::mpsc::unbounded_channel();
    let mqtt_request = MqttRequest {
        version,
        max_packet_size,
        connection: Some(sender),
        is_connected: true,
        ..Default::default()
    };

    (mqtt_request, receiver)
}

#[test]
fn publish_up_to_the_max_packet_size() {
    // One byte topic, 9 bytes of headers in 3.1.1 and 10 in MQTT 5
    for (version, largest_payload) in [(MqttVersion::V3_1_1, 90), (MqttVersion::V5, 89)] {
        let (mut mqtt_request, mut receiver) = connected(version, 100);

        mqtt_publish(&mut mqtt_request, String::from("t"), MqttPayload::Text("x".repeat(largest_payload)), QoS::AtLeastOnce, false, 1_000);
        assert!(matches!(receiver.try_recv(), Ok(MqttCommand::Publish { .. })), "{}", version.to_string());
        assert!(matches!(mqtt_request.messages.last().unwrap().content, MqttMessageContent::Publish { .. }));

        mqtt_publish(&mut mqtt_request, String::from("t"), MqttPayload::Text("x".repeat(largest_payload + 1)), QoS::AtLeastOnce, false, 1_000);
        assert!(receiver.try_recv().is_err(), "{}", version.to_string());
        assert!(matches!(&mqtt_request.messages.last().unwrap().content, MqttMessageContent::Event(event) if event.starts_with("Not published")));
    }
}

#[test]
fn the_smaller_of_the_request_and_broker_limits_applies() {
    // MQTT 5, one byte topic: a payload of limit - 11 bytes fits exactly
    let (mut mqtt_request, mut receiver) = connected(MqttVersion::V5, 1000);
    mqtt_request.broker_max_packet_size = Some(100);

    mqtt_publish(&mut mqtt_request, String::from("t"), MqttPayload::Text("x".repeat(89)), QoS::AtMostOnce, false, 1_000);
    assert!(matches!(receiver.try_recv(), Ok(MqttCommand::Publish { .. })));

    mqtt_publish(&mut mqtt_request, String::from("t"), MqttPayload::Text("x".repeat(90)), QoS::AtMostOnce, false, 1_000);
    assert!(receiver.try_recv().is_err());
    assert!(matches!(&mqtt_request.messages.last().unwrap().content, MqttMessageContent::Event(event) if event.contains("the broker's 100 bytes")));

    // A broker allowing more doesn't raise the request's own limit
    mqtt_request.broker_max_packet_size = Some(100_000);
    mqtt_publish(&mut mqtt_request, String::from("t"), MqttPayload::Text("x".repeat(990)), QoS::AtMostOnce, false, 1_000);
    assert!(receiver.try_recv().is_err());
    assert!(matches!(&mqtt_request.messages.last().unwrap().content, MqttMessageContent::Event(event) if event.contains("the 1000 bytes")));
}

#[test]
fn publish_is_ignored_when_not_connected() {
    let mut mqtt_request = MqttRequest::default();

    mqtt_publish(&mut mqtt_request, String::from("t"), MqttPayload::Text(String::from("x")), QoS::AtMostOnce, false, 1_000);
    assert!(mqtt_request.messages.is_empty());
}

#[test]
fn publish_after_the_connection_ended_is_not_logged() {
    let (mut mqtt_request, receiver) = connected(MqttVersion::V3_1_1, 100);
    drop(receiver);

    mqtt_publish(&mut mqtt_request, String::from("t"), MqttPayload::Text(String::from("x")), QoS::AtMostOnce, false, 1_000);
    assert!(mqtt_request.messages.is_empty());
}

#[test]
fn refused_publish_event_gives_the_size_and_the_limit() {
    let (mut mqtt_request, _receiver) = connected(MqttVersion::V3_1_1, 10);
    mqtt_publish(&mut mqtt_request, String::from("ab"), MqttPayload::Binary(vec![1, 2].into_boxed_slice()), QoS::AtMostOnce, false, 1_000);

    let message = mqtt_request.messages.last().unwrap();
    assert_eq!(message.sender, Sender::You);
    match &message.content {
        MqttMessageContent::Event(event) => assert_eq!(
            event,
            "Not published to \"ab\": the message is about 13 bytes, over the 10 bytes max packet size"
        ),
        _ => panic!("not an event"),
    }
}

#[test]
fn topic_size_counts_its_utf8_bytes() {
    // "é" is 2 bytes: 2 + 1 + 9 = 12
    let (mut mqtt_request, mut receiver) = connected(MqttVersion::V3_1_1, 12);
    mqtt_publish(&mut mqtt_request, String::from("é"), MqttPayload::Text(String::from("x")), QoS::ExactlyOnce, true, 1_000);
    match receiver.try_recv() {
        Ok(MqttCommand::Publish { topic, payload, qos, retain }) => {
            assert_eq!(topic, "é");
            assert_eq!(payload, b"x");
            assert_eq!(qos, QoS::ExactlyOnce);
            assert!(retain);
        }
        _ => panic!("not published"),
    }
    let (mut mqtt_request_small, mut receiver_small) = connected(MqttVersion::V3_1_1, 11);
    mqtt_publish(&mut mqtt_request_small, String::from("é"), MqttPayload::Text(String::from("x")), QoS::ExactlyOnce, true, 1_000);
    assert!(receiver_small.try_recv().is_err());
    assert_eq!(mqtt_request.messages.len(), 1);
}

#[test]
fn limits_take_the_smaller() {
    let mut mqtt_request = MqttRequest { max_packet_size: 500, ..Default::default() };
    assert_eq!(publish_limit(&mqtt_request), (500, false));
    mqtt_request.broker_max_packet_size = Some(200);
    assert_eq!(publish_limit(&mqtt_request), (200, true));
    mqtt_request.broker_max_packet_size = Some(500);
    assert_eq!(publish_limit(&mqtt_request), (500, false));
}

#[test]
fn disconnect_sends_the_command_and_changes_nothing() {
    let (mut mqtt_request, mut receiver) = connected(MqttVersion::V5, 100);
    mqtt_disconnect(&mut mqtt_request);
    assert!(matches!(receiver.try_recv(), Ok(MqttCommand::Disconnect)));
    assert!(mqtt_request.is_connected);
    assert!(mqtt_request.messages.is_empty());

    let mut not_connected = MqttRequest::default();
    mqtt_disconnect(&mut not_connected);
    assert!(not_connected.connection.is_none());
}

#[test]
fn only_publishes_the_connection_took_are_logged() {
    let mut mqtt_request = MqttRequest::default();

    log_publish(&mut mqtt_request, false, String::from("t"), MqttPayload::Text(String::from("x")), QoS::AtMostOnce, false, 1_000);
    assert!(mqtt_request.messages.is_empty());

    log_publish(&mut mqtt_request, true, String::from("t"), MqttPayload::Text(String::from("x")), QoS::ExactlyOnce, true, 1_000);
    assert_eq!(mqtt_request.messages.len(), 1);
    assert_eq!(mqtt_request.messages[0].sender, Sender::You);
    match &mqtt_request.messages[0].content {
        MqttMessageContent::Publish { topic, payload, qos, retain } => {
            assert_eq!(topic, "t");
            assert_eq!(payload, &MqttPayload::Text(String::from("x")));
            assert_eq!(*qos, QoS::ExactlyOnce);
            assert!(*retain);
        }
        _ => panic!("not a publish"),
    }
}

#[test]
fn the_publish_handed_over_carries_the_payload_bytes() {
    let (mut mqtt_request, mut receiver) = connected(MqttVersion::V5, 100);

    mqtt_publish(&mut mqtt_request, String::from("a/b"), MqttPayload::Text(String::from("hé")), QoS::ExactlyOnce, true, 42);

    match receiver.try_recv() {
        Ok(MqttCommand::Publish { topic, payload, qos, retain }) => {
            assert_eq!(topic, "a/b");
            assert_eq!(payload, vec![104, 195, 169]);
            assert_eq!(qos, QoS::ExactlyOnce);
            assert!(retain);
        }
        _ => panic!("no publish was handed over"),
    }
    assert!(receiver.try_recv().is_err());
    assert_eq!(mqtt_request.messages.len(), 1);
    assert_eq!(mqtt_request.messages[0].timestamp, 42);
    assert_eq!(mqtt_request.messages[0].sender, Sender::You);
}
