use atac::messages::get_displayed_messages;
use atac::mqtt::{MqttMessage, MqttMessageContent, MqttRequest, QoS, Sender};
use atac::payload::MqttPayload;
use atac::request::{Protocol, Request, WsMessage, WsRequest};

fn shown(request: &Request) -> Vec<(i64, Sender, String, String)> {
    get_displayed_messages(request)
        .into_iter()
        .map(|message| (message.timestamp, message.sender, message.content, message.details))
        .collect()
}

#[test]
fn mqtt_messages_show_topic_qos_retain_and_payload_type() {
    let messages = vec![
        MqttMessage {
            timestamp: 1,
            sender: Sender::You,
            content: MqttMessageContent::Publish {
                topic: String::from("t"),
                payload: MqttPayload::Text(String::from("hello")),
                qos: QoS::AtLeastOnce,
                retain: true,
            },
        },
        MqttMessage {
            timestamp: 2,
            sender: Sender::Server,
            content: MqttMessageContent::Publish {
                topic: String::from("a/b"),
                payload: MqttPayload::Binary(Box::new([0, 255])),
                qos: QoS::AtMostOnce,
                retain: false,
            },
        },
        MqttMessage { timestamp: 3, sender: Sender::Server, content: MqttMessageContent::Event(String::from("Disconnected")) },
    ];
    let request = Request { protocol: Protocol::MqttRequest(MqttRequest { messages, ..Default::default() }), ..Default::default() };

    assert_eq!(
        shown(&request),
        vec![
            (1, Sender::You, String::from("hello"), String::from("t - QoS 1 - Retained Text")),
            (2, Sender::Server, String::from("[0, 255]"), String::from("a/b - QoS 0 - Binary")),
            (3, Sender::Server, String::from("Disconnected"), String::from("Event")),
        ]
    );
}

#[test]
fn websocket_messages_show_their_type() {
    let messages = vec![WsMessage { timestamp: 7, sender: Sender::You, content: String::from("ping"), kind: String::from("text") }];
    let request = Request { protocol: Protocol::WsRequest(WsRequest { messages }), ..Default::default() };

    assert_eq!(shown(&request), vec![(7, Sender::You, String::from("ping"), String::from("text"))]);
}

#[test]
fn http_requests_have_no_messages() {
    assert!(shown(&Request::default()).is_empty());
}
