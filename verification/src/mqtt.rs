//! The MQTT request: connection settings, subscriptions, what to publish and the messages
//! exchanged with the broker.
use vstd::prelude::*;
use vstd::string::*;
use crate::payload::{MqttPayload, MqttPayloadView};

verus! {

#[derive(Debug, Clone, Copy, PartialEq, Eq, Structural)]
pub enum MqttVersion {
    V3_1_1,
    V5,
}

#[derive(Debug, Clone, Copy, PartialEq, Eq, Structural)]
pub enum QoS {
    AtMostOnce,
    AtLeastOnce,
    ExactlyOnce,
}

/// Who sent a message: this client, or the broker.
#[derive(Debug, Clone, Copy, PartialEq, Eq, Structural)]
pub enum Sender {
    You,
    Server,
}

impl Default for MqttVersion {
    fn default() -> (version: Self)
        ensures
            version == MqttVersion::V3_1_1,
    {
        MqttVersion::V3_1_1
    }
}

impl Default for QoS {
    fn default() -> (qos: Self)
        ensures
            qos == QoS::AtMostOnce,
    {
        QoS::AtMostOnce
    }
}

pub open spec fn version_text(version: MqttVersion) -> Seq<char> {
    match version {
        MqttVersion::V3_1_1 => "3.1.1"@,
        MqttVersion::V5 => "5"@,
    }
}

pub open spec fn qos_text(qos: QoS) -> Seq<char> {
    match qos {
        QoS::AtMostOnce => "QoS 0"@,
        QoS::AtLeastOnce => "QoS 1"@,
        QoS::ExactlyOnce => "QoS 2"@,
    }
}

impl MqttVersion {
    /// The version as it is displayed and written on the command line: "3.1.1" or "5".
    pub fn to_string(&self) -> (text: String)
        ensures
            text@ == version_text(*self),
    {
        match self {
            MqttVersion::V3_1_1 => String::from_str("3.1.1"),
            MqttVersion::V5 => String::from_str("5"),
        }
    }
}

impl QoS {
    /// The QoS as it is displayed: "QoS 0", "QoS 1" or "QoS 2".
    pub fn to_string(&self) -> (text: String)
        ensures
            text@ == qos_text(*self),
    {
        match self {
            QoS::AtMostOnce => String::from_str("QoS 0"),
            QoS::AtLeastOnce => String::from_str("QoS 1"),
            QoS::ExactlyOnce => String::from_str("QoS 2"),
        }
    }
}

#[derive(Debug)]
pub struct MqttSubscription {
    pub enabled: bool,
    pub topic: String,
    pub qos: QoS,
}

pub struct MqttSubscriptionView {
    pub enabled: bool,
    pub topic: Seq<char>,
    pub qos: QoS,
}

impl View for MqttSubscription {
    type V = MqttSubscriptionView;

    open spec fn view(&self) -> MqttSubscriptionView {
        MqttSubscriptionView { enabled: self.enabled, topic: self.topic@, qos: self.qos }
    }
}

impl Clone for MqttSubscription {
    fn clone(&self) -> (copy: Self)
        ensures
            copy@ == self@,
    {
        MqttSubscription { enabled: self.enabled, topic: self.topic.clone(), qos: self.qos }
    }
}

impl Default for MqttSubscription {
    fn default() -> (subscription: Self)
        ensures
            subscription@ == (MqttSubscriptionView {
                enabled: false,
                topic: Seq::empty(),
                qos: QoS::AtMostOnce,
            }),
    {
        MqttSubscription { enabled: false, topic: String::new(), qos: QoS::AtMostOnce }
    }
}

#[derive(Debug)]
pub struct MqttPublish {
    pub topic: String,
    pub qos: QoS,
    pub retain: bool,
}

impl Clone for MqttPublish {
    fn clone(&self) -> (copy: Self)
        ensures
            copy.topic@ == self.topic@,
            copy.qos == self.qos,
            copy.retain == self.retain,
    {
        MqttPublish { topic: self.topic.clone(), qos: self.qos, retain: self.retain }
    }
}

impl Default for MqttPublish {
    fn default() -> (publish: Self)
        ensures
            publish.topic@ == Seq::<char>::empty(),
            publish.qos == QoS::AtMostOnce,
            !publish.retain,
    {
        MqttPublish { topic: String::new(), qos: QoS::AtMostOnce, retain: false }
    }
}

#[derive(Debug)]
pub enum MqttMessageContent {
    Publish {
        topic: String,
        payload: MqttPayload,
        qos: QoS,
        /// Brokers set it on retained messages delivered on subscribe, not on live ones
        retain: bool,
    },
    /// Connection events, e.g. subscription results or disconnections
    Event(String),
}

pub enum MqttMessageContentView {
    Publish { topic: Seq<char>, payload: MqttPayloadView, qos: QoS, retain: bool },
    Event(Seq<char>),
}

impl View for MqttMessageContent {
    type V = MqttMessageContentView;

    open spec fn view(&self) -> MqttMessageContentView {
        match self {
            MqttMessageContent::Publish { topic, payload, qos, retain } => {
                MqttMessageContentView::Publish {
                    topic: topic@,
                    payload: payload@,
                    qos: *qos,
                    retain: *retain,
                }
            },
            MqttMessageContent::Event(event) => MqttMessageContentView::Event(event@),
        }
    }
}

impl Clone for MqttMessageContent {
    fn clone(&self) -> (copy: Self)
        ensures
            copy@ == self@,
    {
        match self {
            MqttMessageContent::Publish { topic, payload, qos, retain } => {
                MqttMessageContent::Publish {
                    topic: topic.clone(),
                    payload: payload.duplicate(),
                    qos: *qos,
                    retain: *retain,
                }
            },
            MqttMessageContent::Event(event) => MqttMessageContent::Event(event.clone()),
        }
    }
}

impl Default for MqttMessageContent {
    fn default() -> (content: Self)
        ensures
            content@ == MqttMessageContentView::Event(Seq::empty()),
    {
        MqttMessageContent::Event(String::new())
    }
}

/// A message exchanged with the broker, or an event of the connection.
#[derive(Debug)]
pub struct MqttMessage {
    /// When it was sent or received, in milliseconds since the Unix epoch
    pub timestamp: i64,
    pub sender: Sender,
    pub content: MqttMessageContent,
}

pub struct MqttMessageView {
    pub timestamp: i64,
    pub sender: Sender,
    pub content: MqttMessageContentView,
}

impl View for MqttMessage {
    type V = MqttMessageView;

    open spec fn view(&self) -> MqttMessageView {
        MqttMessageView { timestamp: self.timestamp, sender: self.sender, content: self.content@ }
    }
}

impl Clone for MqttMessage {
    fn clone(&self) -> (copy: Self)
        ensures
            copy@ == self@,
    {
        MqttMessage { timestamp: self.timestamp, sender: self.sender, content: self.content.clone() }
    }
}

/// Commands for the task owning the broker connection
#[derive(Debug, Clone)]
pub enum MqttCommand {
    Publish { topic: String, payload: Vec<u8>, qos: QoS, retain: bool },
    Disconnect,
}

pub enum MqttCommandView {
    Publish { topic: Seq<char>, payload: Seq<u8>, qos: QoS, retain: bool },
    Disconnect,
}

impl View for MqttCommand {
    type V = MqttCommandView;

    open spec fn view(&self) -> MqttCommandView {
        match self {
            MqttCommand::Publish { topic, payload, qos, retain } => MqttCommandView::Publish {
                topic: topic@,
                payload: payload@,
                qos: *qos,
                retain: *retain,
            },
            MqttCommand::Disconnect => MqttCommandView::Disconnect,
        }
    }
}

/// Broker URL is the request URL (mqtt:// or mqtts://), username and password come from the request basic auth
#[derive(Debug, Clone)]
pub struct MqttRequest {
    pub version: MqttVersion,
    /// An empty client ID lets the broker assign one, only possible with a clean session
    pub client_id: String,
    pub clean_session: bool,
    /// In seconds, MQTT 5 only, how long the broker keeps the session when clean session is off
    pub session_expiry_interval: u32,
    /// In seconds
    pub keep_alive: u16,
    /// In bytes, applies to both incoming and outgoing packets
    pub max_packet_size: u32,
    pub subscriptions: Vec<MqttSubscription>,
    pub publish: MqttPublish,
    pub messages: Vec<MqttMessage>,
    pub payload: MqttPayload,
    /// Commands for the task owning the broker connection
    pub connection: Option<tokio::sync::mpsc::UnboundedSender<MqttCommand>>,
    pub is_connected: bool,
    /// The maximum packet size the broker announced on connection, MQTT 5 only
    pub broker_max_packet_size: Option<u32>,
}

pub open spec fn messages_view(messages: Seq<MqttMessage>) -> Seq<MqttMessageView> {
    messages.map_values(|m: MqttMessage| m@)
}

pub open spec fn subscriptions_view(subscriptions: Seq<MqttSubscription>) -> Seq<
    MqttSubscriptionView,
> {
    subscriptions.map_values(|s: MqttSubscription| s@)
}

pub fn default_clean_session() -> (clean_session: bool)
    ensures
        clean_session,
{
    true
}

/// Long enough to test resuming a session, without leaving never-expiring sessions on shared brokers
pub fn default_session_expiry_interval() -> (seconds: u32)
    ensures
        seconds == 3600,
{
    3600
}

pub fn default_keep_alive() -> (seconds: u16)
    ensures
        seconds == 60,
{
    60
}

/// rumqttc defaults to 10 KiB, which is too small for a lot of real payloads
pub fn default_max_packet_size() -> (bytes: u32)
    ensures
        bytes == 1024 * 1024,
{
    1024 * 1024
}

impl Default for MqttRequest {
    fn default() -> (request: Self)
        ensures
            request.version == MqttVersion::V3_1_1,
            request.client_id@ == Seq::<char>::empty(),
            request.clean_session,
            request.session_expiry_interval == 3600,
            request.keep_alive == 60,
            request.max_packet_size == 1024 * 1024,
            request.subscriptions@ == Seq::<MqttSubscription>::empty(),
            request.publish.topic@ == Seq::<char>::empty(),
            request.publish.qos == QoS::AtMostOnce,
            !request.publish.retain,
            request.messages@ == Seq::<MqttMessage>::empty(),
            request.payload@ == MqttPayloadView::Text(Seq::empty()),
            request.connection is None,
            !request.is_connected,
            request.broker_max_packet_size is None,
    {
        MqttRequest {
            version: MqttVersion::V3_1_1,
            client_id: String::new(),
            clean_session: default_clean_session(),
            session_expiry_interval: default_session_expiry_interval(),
            keep_alive: default_keep_alive(),
            max_packet_size: default_max_packet_size(),
            subscriptions: Vec::new(),
            publish: MqttPublish { topic: String::new(), qos: QoS::AtMostOnce, retain: false },
            messages: Vec::new(),
            payload: MqttPayload::Text(String::new()),
            connection: None,
            is_connected: false,
            broker_max_packet_size: None,
        }
    }
}

} // verus!
