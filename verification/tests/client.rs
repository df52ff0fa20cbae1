use atac::client::{
    accept_server_cert, begin_connection_attempt, connack_properties_to_vec, connection_response, error_response,
    finish_connection_attempt, handle_mqtt_event, publication_failed, session_expiry_to_send, subscription_failed,
    ConnAckProperties, ConnectionAttempt, EventOutcome, MqttEvent, ResponseContent, ServerCertCheck,
};
use atac::mqtt::{MqttMessageContent, MqttRequest, MqttVersion, QoS, Sender};
use atac::payload::MqttPayload;
use atac::prepare::PreparedMqttRequest;

fn no_properties() -> ConnAckProperties {
    ConnAckProperties {
        session_expiry_interval: None,
        receive_max: None,
        max_qos: None,
        retain_available: None,
        max_packet_size: None,
        assigned_client_identifier: None,
        topic_alias_max: None,
        reason_string: None,
        user_properties: vec![],
        wildcard_subscription_available: None,
        subscription_identifiers_available: None,
        shared_subscription_available: None,
        server_keep_alive: None,
        response_information: None,
        server_reference: None,
        authentication_method: None,
    }
}

fn pairs(list: &[(&str, &str)]) -> Vec<(String, String)> {
    list.iter().map(|(a, b)| (a.to_string(), b.to_string())).collect()
}

fn last_event(mqtt_request: &MqttRequest) -> String {
    match &mqtt_request.messages.last().unwrap().content {
        MqttMessageContent::Event(event) => event.clone(),
        _ => panic!("not an event"),
    }
}

#[test]
fn only_sent_connack_properties_are_listed_in_order() {
    assert!(connack_properties_to_vec(&no_properties()).is_empty());

    let properties = ConnAckProperties {
        session_expiry_interval: Some(0),
        max_qos: Some(1),
        max_packet_size: Some(268435455),
        assigned_client_identifier: Some(String::from("auto-1")),
        server_keep_alive: Some(30),
        user_properties: pairs(&[("k", "v")]),
        ..no_properties()
    };
    assert_eq!(
        connack_properties_to_vec(&properties),
        pairs(&[
            ("session expiry interval", "0"),
            ("maximum QoS", "1"),
            ("maximum packet size", "268435455"),
            ("assigned client identifier", "auto-1"),
            ("server keep alive", "30"),
            ("k", "v"),
        ])
    );
}

#[test]
fn connection_attempt_responses() {
    let connected = connection_response(ConnectionAttempt::Connected {
        code: String::from("Success"),
        session_present: true,
        properties: pairs(&[("receive maximum", "10")]),
    });
    assert_eq!(connected.status_code.as_deref(), Some("CONNACK Success"));
    assert!(connected.content.is_none() && connected.duration.is_none() && connected.cookies.is_none());
    assert_eq!(connected.headers, pairs(&[("session present", "true"), ("receive maximum", "10")]));

    for (attempt, status) in [(ConnectionAttempt::Canceled, "CANCELED"), (ConnectionAttempt::TimedOut, "TIMEOUT")] {
        let response = connection_response(attempt);
        assert_eq!(response.status_code.as_deref(), Some(status));
        assert!(response.content.is_none() && response.headers.is_empty());
    }

    for attempt in [ConnectionAttempt::ClientError(String::from("bad")), ConnectionAttempt::ConnectionError(String::from("bad"))] {
        let response = connection_response(attempt);
        assert_eq!(response.status_code.as_deref(), Some("bad"));
        assert!(matches!(response.content, Some(ResponseContent::Body(body)) if body == "bad"));
        assert!(response.headers.is_empty());
    }
}

#[test]
fn a_failed_attempt_leaves_its_reason_in_the_messages() {
    let mut mqtt_request = MqttRequest { is_connected: true, broker_max_packet_size: Some(10), ..Default::default() };
    begin_connection_attempt(&mut mqtt_request);
    assert!(!mqtt_request.is_connected);
    assert_eq!(mqtt_request.broker_max_packet_size, None);

    subscription_failed(&mut mqtt_request, &String::from("old"), &String::from("e"), 1);
    finish_connection_attempt(&mut mqtt_request, &error_response(String::from("Connection refused")), None, Some(5), 7);

    assert_eq!(mqtt_request.messages.len(), 1);
    assert_eq!(mqtt_request.messages[0].sender, Sender::Server);
    assert_eq!(last_event(&mqtt_request), "Connection refused");
    assert_eq!(mqtt_request.messages[0].timestamp, 7);
    assert!(mqtt_request.connection.is_none() && !mqtt_request.is_connected);
    assert_eq!(mqtt_request.broker_max_packet_size, None);

    let canceled = connection_response(ConnectionAttempt::Canceled);
    finish_connection_attempt(&mut mqtt_request, &canceled, None, None, 8);
    assert!(mqtt_request.messages.is_empty());
}

#[test]
fn a_successful_attempt_keeps_the_connection() {
    let (sender, _receiver) = tokio::sync::mpsc::unbounded_channel();
    let mut mqtt_request = MqttRequest::default();
    let response = connection_response(ConnectionAttempt::Connected { code: String::from("Success"), session_present: false, properties: vec![] });

    finish_connection_attempt(&mut mqtt_request, &response, Some(sender), Some(1000), 9);

    assert!(mqtt_request.is_connected && mqtt_request.connection.is_some());
    assert_eq!(mqtt_request.broker_max_packet_size, Some(1000));
    assert!(mqtt_request.messages.is_empty());
}

#[test]
fn broker_events_are_logged() {
    let (sender, _receiver) = tokio::sync::mpsc::unbounded_channel();
    let mut mqtt_request = MqttRequest { connection: Some(sender), is_connected: true, ..Default::default() };

    let outcome = handle_mqtt_event(
        &mut mqtt_request,
        Ok(MqttEvent::Publish { topic: String::from("t"), payload: vec![0xff], qos: QoS::ExactlyOnce, retain: true }),
        5,
    );
    assert_eq!(outcome, EventOutcome::Logged);
    assert_eq!(mqtt_request.messages[0].timestamp, 5);
    match &mqtt_request.messages[0].content {
        MqttMessageContent::Publish { topic, payload, qos, retain } => {
            assert_eq!(topic, "t");
            assert_eq!(payload, &MqttPayload::Binary(Box::new([0xff])));
            assert_eq!(*qos, QoS::ExactlyOnce);
            assert!(*retain);
        }
        _ => panic!("not a publish"),
    }

    assert_eq!(handle_mqtt_event(&mut mqtt_request, Ok(MqttEvent::SubAck(String::from("[Success(AtLeastOnce)]"))), 6), EventOutcome::Logged);
    assert_eq!(last_event(&mqtt_request), "Subscription result: [Success(AtLeastOnce)]");

    let connack = MqttEvent::ConnAck { code: String::from("Success"), session_present: false, properties: vec![], max_packet_size: None };
    assert_eq!(handle_mqtt_event(&mut mqtt_request, Ok(connack), 7), EventOutcome::Ignored);
    assert_eq!(handle_mqtt_event(&mut mqtt_request, Ok(MqttEvent::Other), 8), EventOutcome::Ignored);
    assert_eq!(mqtt_request.messages.len(), 2);
    assert!(mqtt_request.is_connected);
}

#[test]
fn disconnections_and_errors_end_the_connection() {
    for (event, reason) in [
        (Ok(MqttEvent::Disconnect(String::from("Server shutting down"))), "Server shutting down"),
        (Ok(MqttEvent::Disconnected), "Disconnected"),
        (Err(String::from("I/O: reset")), "Connection closed: I/O: reset"),
    ] {
        let (sender, _receiver) = tokio::sync::mpsc::unbounded_channel();
        let mut mqtt_request = MqttRequest { connection: Some(sender), is_connected: true, ..Default::default() };

        assert_eq!(handle_mqtt_event(&mut mqtt_request, event, 9), EventOutcome::Ended);
        assert!(mqtt_request.connection.is_none() && !mqtt_request.is_connected);
        assert_eq!(last_event(&mqtt_request), reason);
    }
}

#[test]
fn failed_requests_are_logged() {
    let mut mqtt_request = MqttRequest::default();
    subscription_failed(&mut mqtt_request, &String::from("a/#"), &String::from("full"), 10);
    assert_eq!(last_event(&mqtt_request), "Could not subscribe to \"a/#\": full");
    publication_failed(&mut mqtt_request, &String::from("b"), &String::from("closed"), 11);
    assert_eq!(last_event(&mqtt_request), "Could not publish to \"b\": closed");
    assert_eq!((mqtt_request.messages[0].timestamp, mqtt_request.messages[1].timestamp), (10, 11));
    assert_eq!(mqtt_request.messages.len(), 2);
}

#[test]
fn session_expiry_is_only_sent_for_a_kept_named_session() {
    let prepared = |clean_session: bool, client_id: &str, interval: u32| PreparedMqttRequest {
        host: String::from("h"),
        port: 1883,
        use_tls: false,
        accept_invalid_certs: false,
        accept_invalid_hostnames: false,
        version: MqttVersion::V5,
        client_id: client_id.to_string(),
        clean_session,
        session_expiry_interval: interval,
        keep_alive: 60,
        max_packet_size: 1024,
        connection_timeout: 30,
        credentials: None,
        subscriptions: vec![],
    };

    assert_eq!(session_expiry_to_send(&prepared(false, "me", 3600)), Some(3600));
    assert_eq!(session_expiry_to_send(&prepared(true, "me", 3600)), None);
    assert_eq!(session_expiry_to_send(&prepared(false, "", 3600)), None);
    assert_eq!(session_expiry_to_send(&prepared(false, "me", 0)), None);
}

#[test]
fn server_certificates() {
    for accept_invalid_hostnames in [false, true] {
        assert!(accept_server_cert(ServerCertCheck::NotChecked, accept_invalid_hostnames));
        assert!(accept_server_cert(ServerCertCheck::Valid, accept_invalid_hostnames));
        assert!(!accept_server_cert(ServerCertCheck::Invalid, accept_invalid_hostnames));
        assert_eq!(accept_server_cert(ServerCertCheck::WrongName, accept_invalid_hostnames), accept_invalid_hostnames);
    }
}
