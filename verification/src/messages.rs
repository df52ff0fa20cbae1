//! The messages result tab: websocket and MQTT messages as they are displayed.
use vstd::prelude::*;
use vstd::string::*;
use crate::mqtt::{MqttMessage, MqttMessageContent, MqttMessageContentView, MqttMessageView, Sender, messages_view, qos_text};
use crate::request::{Protocol, Request, WsMessage};

verus! {

/// A websocket or MQTT message, as displayed in the messages result tab
pub struct DisplayedMessage {
    /// In milliseconds since the Unix epoch
    pub timestamp: i64,
    pub sender: Sender,
    pub content: String,
    /// e.g. the message type, or the MQTT topic and QoS
    pub details: String,
}

pub struct DisplayedMessageView {
    pub timestamp: i64,
    pub sender: Sender,
    pub content: Seq<char>,
    pub details: Seq<char>,
}

impl View for DisplayedMessage {
    type V = DisplayedMessageView;

    open spec fn view(&self) -> DisplayedMessageView {
        DisplayedMessageView {
            timestamp: self.timestamp,
            sender: self.sender,
            content: self.content@,
            details: self.details@,
        }
    }
}

/// How an MQTT message is displayed: a publish shows its payload, with its topic, QoS and
/// payload type as details; an event shows its text.
pub open spec fn displayed_mqtt_message(message: MqttMessageView) -> DisplayedMessageView {
    match message.content {
        MqttMessageContentView::Publish { topic, payload, qos, retain } => DisplayedMessageView {
            timestamp: message.timestamp,
            sender: message.sender,
            content: payload.content(),
            details: topic + " - "@ + qos_text(qos) + " - "@ + (if retain {
                "Retained "@
            } else {
                ""@
            }) + payload.kind_name(),
        },
        MqttMessageContentView::Event(event) => DisplayedMessageView {
            timestamp: message.timestamp,
            sender: message.sender,
            content: event,
            details: "Event"@,
        },
    }
}

pub open spec fn displayed_ws_message(message: WsMessage) -> DisplayedMessageView {
    DisplayedMessageView {
        timestamp: message.timestamp,
        sender: message.sender,
        content: message.content@,
        details: message.kind@,
    }
}

/// The messages of a request as they are displayed, oldest first.
pub open spec fn displayed_messages(request: Request) -> Seq<DisplayedMessageView> {
    match request.protocol {
        Protocol::HttpRequest(_) => seq![],
        Protocol::WsRequest(ws_request) => ws_request.messages@.map_values(
            |m: WsMessage| displayed_ws_message(m),
        ),
        Protocol::MqttRequest(mqtt_request) => messages_view(mqtt_request.messages@).map_values(
            |m: MqttMessageView| displayed_mqtt_message(m),
        ),
    }
}

fn display_mqtt_message(message: &MqttMessage) -> (displayed: DisplayedMessage)
    ensures
        displayed@ == displayed_mqtt_message(message@),
{
    match &message.content {
        MqttMessageContent::Publish { topic, payload, qos, retain } => {
            let mut details = topic.clone();
            details.append(" - ");
            details.append(qos.to_string().as_str());
            details.append(" - ");
            if *retain {
                details.append("Retained ");
            } else {
                proof {
                    reveal_strlit("");
                }
                assert(details@ + ""@ =~= details@);
            }
            details.append(payload.to_string().as_str());
            DisplayedMessage {
                timestamp: message.timestamp,
                sender: message.sender,
                content: payload.to_content(),
                details,
            }
        },
        MqttMessageContent::Event(event) => DisplayedMessage {
            timestamp: message.timestamp,
            sender: message.sender,
            content: event.clone(),
            details: String::from_str("Event"),
        },
    }
}

pub fn get_displayed_messages(request: &Request) -> (displayed: Vec<DisplayedMessage>)
    ensures
        displayed@.map_values(|d: DisplayedMessage| d@) == displayed_messages(*request),
{
    let mut displayed: Vec<DisplayedMessage> = Vec::new();
    match &request.protocol {
        Protocol::HttpRequest(_) => {},
        Protocol::WsRequest(ws_request) => {
            let mut i: usize = 0;
            while i < ws_request.messages.len()
                invariant
                    i <= ws_request.messages@.len(),
                    displayed@.map_values(|d: DisplayedMessage| d@) == ws_request.messages@.subrange(
                        0,
                        i as int,
                    ).map_values(|m: WsMessage| displayed_ws_message(m)),
                decreases ws_request.messages@.len() - i,
            {
                let message = &ws_request.messages[i];
                let ghost before = displayed@;
                displayed.push(
                    DisplayedMessage {
                        timestamp: message.timestamp,
                        sender: message.sender,
                        content: message.content.clone(),
                        details: message.kind.clone(),
                    },
                );
                assert(displayed@.map_values(|d: DisplayedMessage| d@) =~= before.map_values(
                    |d: DisplayedMessage| d@,
                ).push(displayed_ws_message(*message)));
                assert(ws_request.messages@.subrange(0, i + 1).map_values(
                    |m: WsMessage| displayed_ws_message(m),
                ) =~= ws_request.messages@.subrange(0, i as int).map_values(
                    |m: WsMessage| displayed_ws_message(m),
                ).push(displayed_ws_message(*message)));
                i = i + 1;
            }
            assert(ws_request.messages@.subrange(0, ws_request.messages@.len() as int)
                =~= ws_request.messages@);
        },
        Protocol::MqttRequest(mqtt_request) => {
            let mut i: usize = 0;
            while i < mqtt_request.messages.len()
                invariant
                    i <= mqtt_request.messages@.len(),
                    displayed@.map_values(|d: DisplayedMessage| d@) == messages_view(
                        mqtt_request.messages@.subrange(0, i as int),
                    ).map_values(|m: MqttMessageView| displayed_mqtt_message(m)),
                decreases mqtt_request.messages@.len() - i,
            {
                let message = &mqtt_request.messages[i];
                let ghost before = displayed@;
                displayed.push(display_mqtt_message(message));
                assert(displayed@.map_values(|d: DisplayedMessage| d@) =~= before.map_values(
                    |d: DisplayedMessage| d@,
                ).push(displayed_mqtt_message(message@)));
                assert(messages_view(mqtt_request.messages@.subrange(0, i + 1)).map_values(
                    |m: MqttMessageView| displayed_mqtt_message(m),
                ) =~= messages_view(mqtt_request.messages@.subrange(0, i as int)).map_values(
                    |m: MqttMessageView| displayed_mqtt_message(m),
                ).push(displayed_mqtt_message(message@)));
                i = i + 1;
            }
            assert(mqtt_request.messages@.subrange(0, mqtt_request.messages@.len() as int)
                =~= mqtt_request.messages@);
        },
    }
    displayed
}

} // verus!
