//! Publishing on, and disconnecting, the broker connection of a request.
use vstd::prelude::*;
use vstd::string::*;
use vstd::utf8::encode_utf8;
use tokio::sync::mpsc::UnboundedSender;
use crate::mqtt::{MqttCommand, MqttCommandView, MqttMessage, MqttMessageContent, MqttMessageContentView, MqttRequest, MqttVersion, QoS, Sender};
use crate::payload::{MqttPayload, MqttPayloadView};
use crate::text::{decimal, write_decimal};

verus! {

/// The size of the fixed and variable headers of a publish packet, at most 9 bytes, plus the
/// properties length for MQTT 5.
pub open spec fn headers_size(version: MqttVersion) -> nat {
    match version {
        MqttVersion::V3_1_1 => 9,
        MqttVersion::V5 => 10,
    }
}

/// About how many bytes a publish packet takes on the wire.
pub open spec fn publish_packet_size(version: MqttVersion, topic: Seq<char>, payload: Seq<u8>) -> nat {
    payload.len() + encode_utf8(topic).len() + headers_size(version)
}

/// The largest packet that may be sent, and whether it is the broker's limit: an MQTT 5
/// broker can accept less than the request allows, never more.
pub open spec fn publish_limit_of(max_packet_size: u32, broker_max_packet_size: Option<u32>) -> (u32, bool) {
    match broker_max_packet_size {
        Some(broker) => if broker < max_packet_size {
            (broker, true)
        } else {
            (max_packet_size, false)
        },
        None => (max_packet_size, false),
    }
}

/// The event logged instead of a publish that is over the limit.
pub open spec fn not_published_text(topic: Seq<char>, packet_size: nat, broker: bool, limit: u32) -> Seq<char> {
    "Not published to \""@ + topic + "\": the message is about "@ + decimal(packet_size)
        + " bytes, over "@ + (if broker { "the broker's "@ } else { "the "@ }) + decimal(
        limit as nat,
    ) + " bytes max packet size"@
}

/// The messages after one more was logged at the end, sent by `sender` at `timestamp`.
pub open spec fn one_more_message(before: Seq<MqttMessage>, after: Seq<MqttMessage>, sender: Sender, timestamp: i64) -> bool {
    &&& after.len() == before.len() + 1
    &&& after.drop_last() == before
    &&& after.last().sender == sender
    &&& after.last().timestamp == timestamp
}

/// The request after a message was logged: only the messages changed, by one more at the end,
/// sent by this client at `timestamp`.
pub open spec fn logged_one_message(before: MqttRequest, after: MqttRequest, timestamp: i64) -> bool {
    &&& after == (MqttRequest { messages: after.messages, ..before })
    &&& one_more_message(before.messages@, after.messages@, Sender::You, timestamp)
}

/// The commands queued on a connection's channel through this sender, oldest first.
pub uninterp spec fn queued_commands(sender: UnboundedSender<MqttCommand>) -> Seq<MqttCommandView>;

/// The connection after `commands` were queued on it through the sender it had before.
pub open spec fn queued_on(before: UnboundedSender<MqttCommand>, after: Option<UnboundedSender<MqttCommand>>, commands: Seq<MqttCommandView>) -> bool {
    after matches Some(sender) && queued_commands(sender) == queued_commands(before) + commands
}

/// Calls `UnboundedSender::send`, which queues the command on the channel without waiting
/// and gives it back in an error, queuing nothing, when the receiving side is gone. Which of
/// the two happens depends on the other task, so the result is not stated.
#[verifier::external_body]
fn send_command(connection: &mut UnboundedSender<MqttCommand>, command: MqttCommand) -> (sent: bool)
    ensures
        sent ==> queued_commands(*final(connection)) == queued_commands(*old(connection)).push(
            command@,
        ),
        !sent ==> queued_commands(*final(connection)) == queued_commands(*old(connection)),
{
    connection.send(command).is_ok()
}

/// The largest packet that may be published on the request's connection, and whether it is
/// the broker's limit.
pub fn publish_limit(mqtt_request: &MqttRequest) -> (limit: (u32, bool))
    ensures
        limit == publish_limit_of(mqtt_request.max_packet_size, mqtt_request.broker_max_packet_size),
        limit.0 <= mqtt_request.max_packet_size,
        mqtt_request.broker_max_packet_size matches Some(broker) ==> limit.0 <= broker,
{
    match mqtt_request.broker_max_packet_size {
        Some(broker_max_packet_size) if broker_max_packet_size < mqtt_request.max_packet_size => (
            broker_max_packet_size,
            true,
        ),
        _ => (mqtt_request.max_packet_size, false),
    }
}

fn not_published_event(topic: &String, packet_size: u128, broker: bool, limit: u32) -> (event: String)
    ensures
        event@ == not_published_text(topic@, packet_size as nat, broker, limit),
{
    let mut event = String::from_str("Not published to \"");
    event.append(topic.as_str());
    event.append("\": the message is about ");
    write_decimal(packet_size, &mut event);
    event.append(" bytes, over ");
    if broker {
        event.append("the broker's ");
    } else {
        event.append("the ");
    }
    write_decimal(limit as u128, &mut event);
    event.append(" bytes max packet size");
    event
}

/// What a publish becomes: a command for the connection, or a refusal of a packet over the
/// limit.
pub enum PublishDecision {
    Send(MqttCommand),
    TooLarge { packet_size: u128, limit: u32, broker_limit: bool },
}

/// Decides whether a publish can be sent: a packet over the limit would make the broker, or
/// the MQTT client, close the connection.
pub fn publish_decision(mqtt_request: &MqttRequest, topic: &String, payload: &MqttPayload, qos: QoS, retain: bool) -> (decision: PublishDecision)
    ensures
        ({
            let size = publish_packet_size(mqtt_request.version, topic@, payload@.bytes());
            let (limit, broker) = publish_limit_of(
                mqtt_request.max_packet_size,
                mqtt_request.broker_max_packet_size,
            );
            if size > limit {
                decision matches PublishDecision::TooLarge { packet_size, limit: l, broker_limit }
                    && packet_size == size && l == limit && broker_limit == broker
            } else {
                decision matches PublishDecision::Send(
                    MqttCommand::Publish { topic: t, payload: p, qos: q, retain: r },
                ) && t@ == topic@ && p@ == payload@.bytes() && q == qos && r == retain
            }
        }),
{
    let payload_bytes = payload.to_bytes();

    // Sending a packet over the limit would close the connection, the fixed and variable headers are at most 9 bytes,
    // plus the properties length for MQTT 5
    let headers_size: u128 = match mqtt_request.version {
        MqttVersion::V3_1_1 => 9,
        MqttVersion::V5 => 10,
    };
    let packet_size: u128 = payload_bytes.len() as u128 + topic.as_str().as_bytes().len() as u128
        + headers_size;

    // An MQTT 5 broker can accept less than the request allows, rumqttc would then close the connection
    let (max_packet_size, broker_limit) = publish_limit(mqtt_request);

    if packet_size > max_packet_size as u128 {
        PublishDecision::TooLarge { packet_size, limit: max_packet_size, broker_limit }
    } else {
        PublishDecision::Send(
            MqttCommand::Publish { topic: topic.clone(), payload: payload_bytes, qos, retain },
        )
    }
}

/// The command that publishing these values hands to the connection.
pub open spec fn publish_command(topic: Seq<char>, payload: MqttPayloadView, qos: QoS, retain: bool) -> MqttCommandView {
    MqttCommandView::Publish { topic, payload: payload.bytes(), qos, retain }
}

/// The request after a publish: ignored when not connected; over the limit, refused with an
/// event and nothing handed to the connection; else handed to the connection, and logged
/// exactly when the connection queued it.
pub open spec fn published(before: MqttRequest, after: MqttRequest, topic: Seq<char>, payload: MqttPayloadView, qos: QoS, retain: bool, timestamp: i64) -> bool {
    match before.connection {
        None => after == before,
        Some(connection) => {
            let size = publish_packet_size(before.version, topic, payload.bytes());
            let (limit, broker) = publish_limit_of(before.max_packet_size, before.broker_max_packet_size);
            if size > limit {
                &&& logged_one_message(before, after, timestamp)
                &&& after.messages@.last().content@ == MqttMessageContentView::Event(
                    not_published_text(topic, size, broker, limit),
                )
            } else {
                &&& after == (MqttRequest {
                    connection: after.connection,
                    messages: after.messages,
                    ..before
                })
                &&& {
                    ||| {
                    &&& queued_on(connection, after.connection, seq![publish_command(topic, payload, qos, retain)])
                    &&& one_more_message(before.messages@, after.messages@, Sender::You, timestamp)
                    &&& after.messages@.last().content@ == MqttMessageContentView::Publish {
                        topic,
                        payload,
                        qos,
                        retain,
                    }
                }
                ||| {
                    &&& queued_on(connection, after.connection, seq![])
                    &&& after.messages == before.messages
                }
                }
            }
        },
    }
}

/// Queue a message to be published on the request's broker connection, and add it to the messages
pub fn mqtt_publish(mqtt_request: &mut MqttRequest, topic: String, payload: MqttPayload, qos: QoS, retain: bool, timestamp: i64)
    ensures
        published(*old(mqtt_request), *final(mqtt_request), topic@, payload@, qos, retain, timestamp),
{
    if mqtt_request.connection.is_none() {
        return ;
    }
    let command = match publish_decision(mqtt_request, &topic, &payload, qos, retain) {
        PublishDecision::Send(command) => command,
        PublishDecision::TooLarge { packet_size, limit, broker_limit } => {
            let event = not_published_event(&topic, packet_size, broker_limit, limit);
            mqtt_request.messages.push(
                MqttMessage { timestamp, sender: Sender::You, content: MqttMessageContent::Event(event) },
            );
            assert(mqtt_request.messages@.drop_last() =~= old(mqtt_request).messages@);
            return ;
        },
    };
    let ghost before = *mqtt_request;
    let sent = match &mut mqtt_request.connection {
        Some(connection) => send_command(connection, command),
        None => false,
    };
    proof {
        let c0 = before.connection->Some_0;
        if sent {
            assert(queued_commands(c0).push(command@) =~= queued_commands(c0) + seq![command@]);
        } else {
            assert(queued_commands(c0) =~= queued_commands(c0) + seq![]);
        }
    }
    log_publish(mqtt_request, sent, topic, payload, qos, retain, timestamp);
}

/// Logs a publish that the connection took; one it did not take, because the connection has
/// ended, leaves the request as it was.
pub fn log_publish(mqtt_request: &mut MqttRequest, sent: bool, topic: String, payload: MqttPayload, qos: QoS, retain: bool, timestamp: i64)
    ensures
        !sent ==> *final(mqtt_request) == *old(mqtt_request),
        sent ==> {
            &&& logged_one_message(*old(mqtt_request), *final(mqtt_request), timestamp)
            &&& final(mqtt_request).messages@.last().content@ == MqttMessageContentView::Publish {
                topic: topic@,
                payload: payload@,
                qos,
                retain,
            }
        },
{
    if !sent {
        return ;
    }
    mqtt_request.messages.push(
        MqttMessage {
            timestamp,
            sender: Sender::You,
            content: MqttMessageContent::Publish { topic, payload, qos, retain },
        },
    );
    assert(mqtt_request.messages@.drop_last() =~= old(mqtt_request).messages@);
}

/// Asks the task owning the broker connection, if there is one, to disconnect: the request
/// is unchanged but for the disconnect command, queued unless the connection has ended.
pub fn mqtt_disconnect(mqtt_request: &mut MqttRequest)
    ensures
        match old(mqtt_request).connection {
            None => *final(mqtt_request) == *old(mqtt_request),
            Some(connection) => {
                &&& *final(mqtt_request) == (MqttRequest {
                    connection: final(mqtt_request).connection,
                    ..*old(mqtt_request)
                })
                &&& queued_on(connection, final(mqtt_request).connection, seq![MqttCommandView::Disconnect])
                    || queued_on(connection, final(mqtt_request).connection, seq![])
            },
        },
{
    let ghost before = *mqtt_request;
    match &mut mqtt_request.connection {
        Some(connection) => {
            let _ = send_command(connection, MqttCommand::Disconnect);
            proof {
                let c0 = before.connection->Some_0;
                assert(queued_commands(c0).push(MqttCommandView::Disconnect) =~= queued_commands(c0)
                    + seq![MqttCommandView::Disconnect]);
                assert(queued_commands(c0) =~= queued_commands(c0) + seq![]);
            }
        },
        None => {},
    }
}

/// The smaller of the request's and the broker's limits applies: a publish is refused exactly
/// when its packet is larger than either of them.
pub proof fn lemma_smaller_limit_applies(max_packet_size: u32, broker_max_packet_size: Option<u32>, size: nat)
    ensures
        size > publish_limit_of(max_packet_size, broker_max_packet_size).0 <==> (size > max_packet_size
            || (broker_max_packet_size matches Some(broker) && size > broker)),
{
}

} // verus!
