//! The decisions around a broker connection: what the connection attempt answers, how the
//! broker's events and the failed requests are logged, and when the connection ends.
use vstd::prelude::*;
use vstd::string::*;
use tokio::sync::mpsc::UnboundedSender;
use crate::mqtt::{MqttCommand, MqttMessage, MqttMessageContent, MqttMessageContentView, MqttRequest, QoS, Sender};
use crate::payload::{MqttPayload, payload_of_bytes};
use crate::prepare::PreparedMqttRequest;
use crate::text::{bool_text, bool_to_text, decimal, decimal_text};

verus! {

pub enum MqttEvent {
    ConnAck {
        code: String,
        session_present: bool,
        properties: Vec<(String, String)>,
        /// The maximum packet size the broker accepts, MQTT 5 only
        max_packet_size: Option<u32>,
    },
    Publish { topic: String, payload: Vec<u8>, qos: QoS, retain: bool },
    SubAck(String),
    Disconnect(String),
    /// Outgoing disconnect has been written, the connection can be dropped
    Disconnected,
    Other,
}

/// The properties an MQTT 5 broker sends with its connection acknowledgement.
pub struct ConnAckProperties {
    pub session_expiry_interval: Option<u32>,
    pub receive_max: Option<u16>,
    pub max_qos: Option<u8>,
    pub retain_available: Option<u8>,
    pub max_packet_size: Option<u32>,
    pub assigned_client_identifier: Option<String>,
    pub topic_alias_max: Option<u16>,
    pub reason_string: Option<String>,
    pub user_properties: Vec<(String, String)>,
    pub wildcard_subscription_available: Option<u8>,
    pub subscription_identifiers_available: Option<u8>,
    pub shared_subscription_available: Option<u8>,
    pub server_keep_alive: Option<u16>,
    pub response_information: Option<String>,
    pub server_reference: Option<String>,
    pub authentication_method: Option<String>,
}

pub open spec fn pairs_view(pairs: Seq<(String, String)>) -> Seq<(Seq<char>, Seq<char>)> {
    pairs.map_values(|p: (String, String)| (p.0@, p.1@))
}

/// A property with its name, where the broker sent it.
pub open spec fn sent_property(name: Seq<char>, value: Option<Seq<char>>) -> Seq<(Seq<char>, Seq<char>)> {
    match value {
        Some(value) => seq![(name, value)],
        None => seq![],
    }
}

pub open spec fn number_property(value: Option<u32>) -> Option<Seq<char>> {
    match value {
        Some(n) => Some(decimal(n as nat)),
        None => None,
    }
}

pub open spec fn text_property(value: Option<String>) -> Option<Seq<char>> {
    match value {
        Some(s) => Some(s@),
        None => None,
    }
}

pub open spec fn opt_u16(value: Option<u16>) -> Option<u32> {
    match value {
        Some(n) => Some(n as u32),
        None => None,
    }
}

pub open spec fn opt_u8(value: Option<u8>) -> Option<u32> {
    match value {
        Some(n) => Some(n as u32),
        None => None,
    }
}

/// The properties the broker actually sent, named, in the protocol's order, then the user
/// properties.
pub open spec fn connack_properties_view(p: ConnAckProperties) -> Seq<(Seq<char>, Seq<char>)> {
    sent_property("session expiry interval"@, number_property(p.session_expiry_interval))
        + sent_property("receive maximum"@, number_property(opt_u16(p.receive_max)))
        + sent_property("maximum QoS"@, number_property(opt_u8(p.max_qos)))
        + sent_property("retain available"@, number_property(opt_u8(p.retain_available)))
        + sent_property("maximum packet size"@, number_property(p.max_packet_size))
        + sent_property("assigned client identifier"@, text_property(p.assigned_client_identifier))
        + sent_property("topic alias maximum"@, number_property(opt_u16(p.topic_alias_max)))
        + sent_property("reason string"@, text_property(p.reason_string))
        + sent_property(
        "wildcard subscription available"@,
        number_property(opt_u8(p.wildcard_subscription_available)),
    ) + sent_property(
        "subscription identifiers available"@,
        number_property(opt_u8(p.subscription_identifiers_available)),
    ) + sent_property(
        "shared subscription available"@,
        number_property(opt_u8(p.shared_subscription_available)),
    ) + sent_property("server keep alive"@, number_property(opt_u16(p.server_keep_alive)))
        + sent_property("response information"@, text_property(p.response_information))
        + sent_property("server reference"@, text_property(p.server_reference))
        + sent_property("authentication method"@, text_property(p.authentication_method))
        + pairs_view(p.user_properties@)
}

fn push_number_property(properties: &mut Vec<(String, String)>, name: &str, value: Option<u32>)
    ensures
        pairs_view(final(properties)@) == pairs_view(old(properties)@) + sent_property(
            name@,
            number_property(value),
        ),
{
    if let Some(value) = value {
        properties.push((String::from_str(name), decimal_text(value as u128)));
    }
    assert(pairs_view(properties@) =~= pairs_view(old(properties)@) + sent_property(
        name@,
        number_property(value),
    ));
}

fn push_text_property(properties: &mut Vec<(String, String)>, name: &str, value: &Option<String>)
    ensures
        pairs_view(final(properties)@) == pairs_view(old(properties)@) + sent_property(
            name@,
            text_property(*value),
        ),
{
    if let Some(value) = value {
        properties.push((String::from_str(name), value.clone()));
    }
    assert(pairs_view(properties@) =~= pairs_view(old(properties)@) + sent_property(
        name@,
        text_property(*value),
    ));
}

fn u16_to_u32(value: Option<u16>) -> (r: Option<u32>)
    ensures
        r == opt_u16(value),
{
    match value {
        Some(n) => Some(n as u32),
        None => None,
    }
}

fn u8_to_u32(value: Option<u8>) -> (r: Option<u32>)
    ensures
        r == opt_u8(value),
{
    match value {
        Some(n) => Some(n as u32),
        None => None,
    }
}

/// Only keeps the properties the broker actually sent
pub fn connack_properties_to_vec(properties: &ConnAckProperties) -> (properties_vec: Vec<(String, String)>)
    ensures
        pairs_view(properties_vec@) == connack_properties_view(*properties),
{
    let mut v: Vec<(String, String)> = Vec::new();
    push_number_property(&mut v, "session expiry interval", properties.session_expiry_interval);
    push_number_property(&mut v, "receive maximum", u16_to_u32(properties.receive_max));
    push_number_property(&mut v, "maximum QoS", u8_to_u32(properties.max_qos));
    push_number_property(&mut v, "retain available", u8_to_u32(properties.retain_available));
    push_number_property(&mut v, "maximum packet size", properties.max_packet_size);
    push_text_property(&mut v, "assigned client identifier", &properties.assigned_client_identifier);
    push_number_property(&mut v, "topic alias maximum", u16_to_u32(properties.topic_alias_max));
    push_text_property(&mut v, "reason string", &properties.reason_string);
    push_number_property(
        &mut v,
        "wildcard subscription available",
        u8_to_u32(properties.wildcard_subscription_available),
    );
    push_number_property(
        &mut v,
        "subscription identifiers available",
        u8_to_u32(properties.subscription_identifiers_available),
    );
    push_number_property(
        &mut v,
        "shared subscription available",
        u8_to_u32(properties.shared_subscription_available),
    );
    push_number_property(&mut v, "server keep alive", u16_to_u32(properties.server_keep_alive));
    push_text_property(&mut v, "response information", &properties.response_information);
    push_text_property(&mut v, "server reference", &properties.server_reference);
    push_text_property(&mut v, "authentication method", &properties.authentication_method);

    let ghost before = pairs_view(v@);
    let mut i: usize = 0;
    while i < properties.user_properties.len()
        invariant
            i <= properties.user_properties@.len(),
            pairs_view(v@) == before + pairs_view(properties.user_properties@.subrange(0, i as int)),
        decreases properties.user_properties@.len() - i,
    {
        let pair = &properties.user_properties[i];
        let ghost old_v = v@;
        v.push((pair.0.clone(), pair.1.clone()));
        assert(pairs_view(v@) =~= pairs_view(old_v).push((pair.0@, pair.1@)));
        assert(pairs_view(properties.user_properties@.subrange(0, i + 1)) =~= pairs_view(
            properties.user_properties@.subrange(0, i as int),
        ).push((pair.0@, pair.1@)));
        assert(pairs_view(v@) =~= before + pairs_view(
            properties.user_properties@.subrange(0, i + 1),
        ));
        i = i + 1;
    }
    assert(properties.user_properties@.subrange(0, properties.user_properties@.len() as int)
        =~= properties.user_properties@);
    assert(pairs_view(v@) =~= connack_properties_view(*properties));
    v
}

/// MQTT 5 sessions end on disconnect unless an expiry interval is sent. Not sent without a
/// client ID, the broker would assign one that is never reused and keep its session.
pub open spec fn session_expiry_sent(clean_session: bool, client_id: Seq<char>, interval: u32) -> Option<u32> {
    if !clean_session && client_id.len() != 0 && interval > 0 {
        Some(interval)
    } else {
        None
    }
}

/// The session expiry interval that an MQTT 5 connection sends, if any.
pub fn session_expiry_to_send(prepared: &PreparedMqttRequest) -> (interval: Option<u32>)
    ensures
        interval == session_expiry_sent(
            prepared.clean_session,
            prepared.client_id@,
            prepared.session_expiry_interval,
        ),
{
    if !prepared.clean_session && !prepared.client_id.as_str().is_empty()
        && prepared.session_expiry_interval > 0 {
        Some(prepared.session_expiry_interval)
    } else {
        None
    }
}

/* SERVER CERTIFICATES */

/// What checking the broker's certificate gave.
#[derive(Debug, Clone, Copy, PartialEq, Eq, Structural)]
pub enum ServerCertCheck {
    /// Not checked: invalid certificates are accepted
    NotChecked,
    Valid,
    /// Valid, but not for the broker's name
    WrongName,
    /// Any other failure
    Invalid,
}

/// Applies the request's "accept invalid hostnames" setting on top of the usual check: a
/// certificate that only fails for its name is then accepted.
pub open spec fn server_cert_accepted(check: ServerCertCheck, accept_invalid_hostnames: bool) -> bool {
    match check {
        ServerCertCheck::NotChecked | ServerCertCheck::Valid => true,
        ServerCertCheck::WrongName => accept_invalid_hostnames,
        ServerCertCheck::Invalid => false,
    }
}

pub fn accept_server_cert(check: ServerCertCheck, accept_invalid_hostnames: bool) -> (accepted: bool)
    ensures
        accepted == server_cert_accepted(check, accept_invalid_hostnames),
{
    match check {
        ServerCertCheck::NotChecked | ServerCertCheck::Valid => true,
        ServerCertCheck::WrongName => accept_invalid_hostnames,
        ServerCertCheck::Invalid => false,
    }
}

/* RESPONSE OF THE CONNECTION ATTEMPT */

pub enum ResponseContent {
    Body(String),
    Image(Vec<u8>),
}

/// What a request answered, as the response tab shows it.
pub struct RequestResponse {
    pub duration: Option<String>,
    pub status_code: Option<String>,
    pub content: Option<ResponseContent>,
    pub cookies: Option<String>,
    pub headers: Vec<(String, String)>,
}

pub open spec fn option_text(s: Option<String>) -> Option<Seq<char>> {
    match s {
        Some(s) => Some(s@),
        None => None,
    }
}

pub open spec fn body_text(content: Option<ResponseContent>) -> Option<Seq<char>> {
    match content {
        Some(ResponseContent::Body(body)) => Some(body@),
        _ => None,
    }
}

/// The response of an attempt that failed with `error`.
pub open spec fn is_error_response(response: RequestResponse, error: Seq<char>) -> bool {
    &&& response.duration is None
    &&& option_text(response.status_code) == Some(error)
    &&& body_text(response.content) == Some(error)
    &&& response.cookies is None
    &&& response.headers@.len() == 0
}

pub fn error_response(error: String) -> (response: RequestResponse)
    ensures
        is_error_response(response, error@),
{
    RequestResponse {
        duration: None,
        status_code: Some(error.clone()),
        content: Some(ResponseContent::Body(error)),
        cookies: None,
        headers: Vec::new(),
    }
}

/// How an attempt to connect to the broker ended.
pub enum ConnectionAttempt {
    /// The client could not be created
    ClientError(String),
    Canceled,
    TimedOut,
    /// The connection failed before the broker acknowledged it
    ConnectionError(String),
    Connected { code: String, session_present: bool, properties: Vec<(String, String)> },
}

/// The response of an attempt whose connection was acknowledged.
pub open spec fn is_connack_response(response: RequestResponse, code: Seq<char>, session_present: bool, properties: Seq<(Seq<char>, Seq<char>)>) -> bool {
    &&& response.duration is None
    &&& option_text(response.status_code) == Some("CONNACK "@ + code)
    &&& response.content is None
    &&& response.cookies is None
    &&& pairs_view(response.headers@) == seq![("session present"@, bool_text(session_present))]
        + properties
}

/// The response of a connection attempt, before its duration is known.
pub fn connection_response(attempt: ConnectionAttempt) -> (response: RequestResponse)
    ensures
        match attempt {
            ConnectionAttempt::ClientError(error) => is_error_response(response, error@),
            ConnectionAttempt::ConnectionError(error) => is_error_response(response, error@),
            ConnectionAttempt::Canceled => response.duration is None && option_text(
                response.status_code,
            ) == Some("CANCELED"@) && response.content is None && response.cookies is None
                && response.headers@.len() == 0,
            ConnectionAttempt::TimedOut => response.duration is None && option_text(
                response.status_code,
            ) == Some("TIMEOUT"@) && response.content is None && response.cookies is None
                && response.headers@.len() == 0,
            ConnectionAttempt::Connected { code, session_present, properties } => is_connack_response(
                response,
                code@,
                session_present,
                pairs_view(properties@),
            ),
        },
{
    match attempt {
        ConnectionAttempt::ClientError(error) => error_response(error),
        ConnectionAttempt::ConnectionError(error) => error_response(error),
        ConnectionAttempt::Canceled => RequestResponse {
            duration: None,
            status_code: Some(String::from_str("CANCELED")),
            content: None,
            cookies: None,
            headers: Vec::new(),
        },
        ConnectionAttempt::TimedOut => RequestResponse {
            duration: None,
            status_code: Some(String::from_str("TIMEOUT")),
            content: None,
            cookies: None,
            headers: Vec::new(),
        },
        ConnectionAttempt::Connected { code, session_present, properties } => {
            let ghost props = pairs_view(properties@);
            let mut headers = Vec::new();
            headers.push((String::from_str("session present"), bool_to_text(session_present)));
            let mut properties = properties;
            headers.append(&mut properties);
            assert(pairs_view(headers@) =~= seq![("session present"@, bool_text(session_present))]
                + props);
            let mut status_code = String::from_str("CONNACK ");
            status_code.append(code.as_str());
            RequestResponse {
                duration: None,
                status_code: Some(status_code),
                content: None,
                cookies: None,
                headers,
            }
        },
    }
}

/// Before connecting: the request is not connected, and no broker limit is known.
pub fn begin_connection_attempt(mqtt_request: &mut MqttRequest)
    ensures
        *final(mqtt_request) == (MqttRequest {
            is_connected: false,
            broker_max_packet_size: None,
            ..*old(mqtt_request)
        }),
{
    mqtt_request.is_connected = false;
    mqtt_request.broker_max_packet_size = None;
}

/// The request after an event was logged by the broker side.
pub open spec fn logged_event(before: MqttRequest, after: MqttRequest, event: Seq<char>, timestamp: i64) -> bool {
    &&& after == (MqttRequest { messages: after.messages, ..before })
    &&& after.messages@.last().timestamp == timestamp
    &&& after.messages@.len() == before.messages@.len() + 1
    &&& after.messages@.drop_last() == before.messages@
    &&& after.messages@.last().sender == Sender::Server
    &&& after.messages@.last().content@ == MqttMessageContentView::Event(event)
}

/// Logs an event of the connection in the request's messages, at `timestamp` (in
/// milliseconds since the Unix epoch).
pub fn push_event(mqtt_request: &mut MqttRequest, event: String, timestamp: i64)
    ensures
        logged_event(*old(mqtt_request), *final(mqtt_request), event@, timestamp),
{
    mqtt_request.messages.push(
        MqttMessage {
            timestamp,
            sender: Sender::Server,
            content: MqttMessageContent::Event(event),
        },
    );
    assert(mqtt_request.messages@.drop_last() =~= old(mqtt_request).messages@);
}

/// After the connection attempt, with the response it gave: the messages start anew, with
/// the reason of a failure when there is one; a connection is kept for the requests to come.
pub fn finish_connection_attempt(mqtt_request: &mut MqttRequest, response: &RequestResponse, connection: Option<UnboundedSender<MqttCommand>>, broker_max_packet_size: Option<u32>, timestamp: i64)
    ensures
        connection is None ==> final(mqtt_request).connection == old(mqtt_request).connection
            && final(mqtt_request).is_connected == old(mqtt_request).is_connected
            && final(mqtt_request).broker_max_packet_size == old(mqtt_request).broker_max_packet_size
            && match body_text(response.content) {
            // The messages tab is where MQTT requests are read, so the reason goes there too
            Some(reason) => final(mqtt_request).messages@.len() == 1
                && final(mqtt_request).messages@[0].sender == Sender::Server
                && final(mqtt_request).messages@[0].timestamp == timestamp
                && final(mqtt_request).messages@[0].content@ == MqttMessageContentView::Event(reason),
            None => final(mqtt_request).messages@.len() == 0,
        },
        connection is Some ==> final(mqtt_request).connection == connection
            && final(mqtt_request).is_connected
            && final(mqtt_request).broker_max_packet_size == broker_max_packet_size
            && final(mqtt_request).messages@.len() == 0,
        *final(mqtt_request) == (MqttRequest {
            messages: final(mqtt_request).messages,
            connection: final(mqtt_request).connection,
            is_connected: final(mqtt_request).is_connected,
            broker_max_packet_size: final(mqtt_request).broker_max_packet_size,
            ..*old(mqtt_request)
        }),
{
    mqtt_request.messages = Vec::new();
    match connection {
        None => {
            if let Some(ResponseContent::Body(reason)) = &response.content {
                mqtt_request.messages.push(
                    MqttMessage {
                        timestamp,
                        sender: Sender::Server,
                        content: MqttMessageContent::Event(reason.clone()),
                    },
                );
            }
        },
        Some(sender) => {
            mqtt_request.connection = Some(sender);
            mqtt_request.is_connected = true;
            mqtt_request.broker_max_packet_size = broker_max_packet_size;
        },
    }
}

/* EVENTS AND REQUESTS ON THE CONNECTION */

/// What became of an event of the broker connection.
#[derive(Debug, Clone, Copy, PartialEq, Eq, Structural)]
pub enum EventOutcome {
    /// Nothing to show
    Ignored,
    /// Logged in the messages, there is something new to show
    Logged,
    /// The connection ended, with the reason logged
    Ended,
}

pub open spec fn subscription_result_text(return_codes: Seq<char>) -> Seq<char> {
    "Subscription result: "@ + return_codes
}

pub open spec fn connection_closed_text(error: Seq<char>) -> Seq<char> {
    "Connection closed: "@ + error
}

/// The request once its connection has ended: the reason is logged, and the command sender is
/// dropped, which also ends the requests loop.
pub open spec fn connection_ended(before: MqttRequest, after: MqttRequest, reason: Seq<char>, timestamp: i64) -> bool {
    &&& after == (MqttRequest {
        messages: after.messages,
        connection: None,
        is_connected: false,
        ..before
    })
    &&& after.messages@.len() == before.messages@.len() + 1
    &&& after.messages@.drop_last() == before.messages@
    &&& after.messages@.last().sender == Sender::Server
    &&& after.messages@.last().content@ == MqttMessageContentView::Event(reason)
    &&& after.messages@.last().timestamp == timestamp
}

fn end_connection(mqtt_request: &mut MqttRequest, reason: String, timestamp: i64)
    ensures
        connection_ended(*old(mqtt_request), *final(mqtt_request), reason@, timestamp),
{
    push_event(mqtt_request, reason, timestamp);
    mqtt_request.connection = None;
    mqtt_request.is_connected = false;
}

/// Takes an event polled from the broker connection: logs the messages and the results of
/// subscriptions, and ends the connection on a disconnection or an error.
pub fn handle_mqtt_event(mqtt_request: &mut MqttRequest, event: Result<MqttEvent, String>, timestamp: i64) -> (outcome: EventOutcome)
    ensures
        match event {
            Ok(MqttEvent::Publish { topic, payload, qos, retain }) => outcome == EventOutcome::Logged
                && logged_one_received(*old(mqtt_request), *final(mqtt_request), timestamp)
                && final(mqtt_request).messages@.last().content@ == MqttMessageContentView::Publish {
                topic: topic@,
                payload: payload_of_bytes(payload@),
                qos,
                retain,
            },
            Ok(MqttEvent::SubAck(return_codes)) => outcome == EventOutcome::Logged && logged_event(
                *old(mqtt_request),
                *final(mqtt_request),
                subscription_result_text(return_codes@),
                timestamp,
            ),
            Ok(MqttEvent::Disconnect(reason)) => outcome == EventOutcome::Ended && connection_ended(
                *old(mqtt_request),
                *final(mqtt_request),
                reason@,
                timestamp,
            ),
            Ok(MqttEvent::Disconnected) => outcome == EventOutcome::Ended && connection_ended(
                *old(mqtt_request),
                *final(mqtt_request),
                "Disconnected"@,
                timestamp,
            ),
            Ok(MqttEvent::ConnAck { .. }) => outcome == EventOutcome::Ignored && *final(mqtt_request)
                == *old(mqtt_request),
            Ok(MqttEvent::Other) => outcome == EventOutcome::Ignored && *final(mqtt_request)
                == *old(mqtt_request),
            Err(error) => outcome == EventOutcome::Ended && connection_ended(
                *old(mqtt_request),
                *final(mqtt_request),
                connection_closed_text(error@),
                timestamp,
            ),
        },
{
    match event {
        Ok(MqttEvent::Publish { topic, payload, qos, retain }) => {
            mqtt_request.messages.push(
                MqttMessage {
                    timestamp,
                    sender: Sender::Server,
                    content: MqttMessageContent::Publish {
                        topic,
                        payload: MqttPayload::from_bytes(payload.as_slice()),
                        qos,
                        retain,
                    },
                },
            );
            assert(mqtt_request.messages@.drop_last() =~= old(mqtt_request).messages@);
            EventOutcome::Logged
        },
        Ok(MqttEvent::SubAck(return_codes)) => {
            let mut event = String::from_str("Subscription result: ");
            event.append(return_codes.as_str());
            push_event(mqtt_request, event, timestamp);
            EventOutcome::Logged
        },
        Ok(MqttEvent::Disconnect(reason)) => {
            end_connection(mqtt_request, reason, timestamp);
            EventOutcome::Ended
        },
        Ok(MqttEvent::Disconnected) => {
            end_connection(mqtt_request, String::from_str("Disconnected"), timestamp);
            EventOutcome::Ended
        },
        Ok(MqttEvent::ConnAck { .. }) => EventOutcome::Ignored,
        Ok(MqttEvent::Other) => EventOutcome::Ignored,
        Err(error) => {
            let mut reason = String::from_str("Connection closed: ");
            reason.append(error.as_str());
            end_connection(mqtt_request, reason, timestamp);
            EventOutcome::Ended
        },
    }
}

/// The request after a message from the broker was logged.
pub open spec fn logged_one_received(before: MqttRequest, after: MqttRequest, timestamp: i64) -> bool {
    &&& after == (MqttRequest { messages: after.messages, ..before })
    &&& after.messages@.len() == before.messages@.len() + 1
    &&& after.messages@.drop_last() == before.messages@
    &&& after.messages@.last().sender == Sender::Server
    &&& after.messages@.last().timestamp == timestamp
}

pub open spec fn could_not_text(action: Seq<char>, topic: Seq<char>, error: Seq<char>) -> Seq<char> {
    "Could not "@ + action + " to \""@ + topic + "\": "@ + error
}

fn could_not(action: &str, topic: &String, error: &String) -> (event: String)
    ensures
        event@ == could_not_text(action@, topic@, error@),
{
    let mut event = String::from_str("Could not ");
    event.append(action);
    event.append(" to \"");
    event.append(topic.as_str());
    event.append("\": ");
    event.append(error.as_str());
    event
}

/// Logs that subscribing to a topic failed.
pub fn subscription_failed(mqtt_request: &mut MqttRequest, topic: &String, error: &String, timestamp: i64)
    ensures
        logged_event(
            *old(mqtt_request),
            *final(mqtt_request),
            could_not_text("subscribe"@, topic@, error@),
            timestamp,
        ),
{
    push_event(mqtt_request, could_not("subscribe", topic, error), timestamp);
}

/// Logs that publishing to a topic failed.
pub fn publication_failed(mqtt_request: &mut MqttRequest, topic: &String, error: &String, timestamp: i64)
    ensures
        logged_event(
            *old(mqtt_request),
            *final(mqtt_request),
            could_not_text("publish"@, topic@, error@),
            timestamp,
        ),
{
    push_event(mqtt_request, could_not("publish", topic, error), timestamp);
}

/// The response to an acknowledged connection starts with the broker's session present flag,
/// "true" exactly when the broker kept a session and "false" otherwise, followed by the
/// broker's properties in their order.
pub proof fn lemma_connack_reports_the_session_flag(response: RequestResponse, code: Seq<char>, session_present: bool, properties: Seq<(Seq<char>, Seq<char>)>)
    requires
        is_connack_response(response, code, session_present, properties),
    ensures
        response.headers@.len() == properties.len() + 1,
        response.headers@[0].0@ == "session present"@,
        session_present ==> response.headers@[0].1@ == "true"@,
        !session_present ==> response.headers@[0].1@ == "false"@,
        forall|i: int|
            0 <= i < properties.len() ==> (#[trigger] response.headers@[i + 1]).0@ == properties[i].0
                && response.headers@[i + 1].1@ == properties[i].1,
{
    reveal_strlit("true");
    reveal_strlit("false");
    let headers = pairs_view(response.headers@);
    assert(headers.len() == response.headers@.len());
    assert(headers[0] == (response.headers@[0].0@, response.headers@[0].1@));
    assert forall|i: int| 0 <= i < properties.len() implies (#[trigger] response.headers@[i + 1]).0@
        == properties[i].0 && response.headers@[i + 1].1@ == properties[i].1 by {
        assert(headers[i + 1] == (response.headers@[i + 1].0@, response.headers@[i + 1].1@));
        assert(headers[i + 1] == properties[i]);
    }
}

/// Whatever the broker connection brings (a message, a subscription result, a disconnection
/// or an error), what gets logged is one more message at the end, from the broker, at the
/// given time; the messages before it are kept.
pub proof fn lemma_broker_side_is_logged_as_the_server(before: MqttRequest, after: MqttRequest, text: Seq<char>, timestamp: i64)
    ensures
        logged_one_received(before, after, timestamp) ==> after.messages@.len() == before.messages@.len() + 1
            && after.messages@[before.messages@.len() as int].sender == Sender::Server
            && after.messages@[before.messages@.len() as int].timestamp == timestamp
            && forall|i: int| 0 <= i < before.messages@.len() ==> after.messages@[i] == before.messages@[i],
        logged_event(before, after, text, timestamp) ==> after.messages@.len() == before.messages@.len() + 1
            && after.messages@[before.messages@.len() as int].sender == Sender::Server
            && after.messages@[before.messages@.len() as int].timestamp == timestamp,
        connection_ended(before, after, text, timestamp) ==> after.messages@.len() == before.messages@.len() + 1
            && after.messages@[before.messages@.len() as int].sender == Sender::Server
            && after.messages@[before.messages@.len() as int].timestamp == timestamp
            && after.connection is None && !after.is_connected,
{
    if logged_one_received(before, after, timestamp) {
        assert forall|i: int| 0 <= i < before.messages@.len() implies after.messages@[i]
            == before.messages@[i] by {
            assert(after.messages@.drop_last()[i] == after.messages@[i]);
        }
    }
}

} // verus!
