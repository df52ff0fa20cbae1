//! A request of a collection, with the parts that the MQTT logic and the command line read.
use vstd::prelude::*;
use crate::mqtt::{MqttRequest, Sender};

verus! {

#[derive(Debug)]
pub struct KeyValue {
    pub enabled: bool,
    pub data: (String, String),
}

pub struct KeyValueView {
    pub enabled: bool,
    pub key: Seq<char>,
    pub value: Seq<char>,
}

impl View for KeyValue {
    type V = KeyValueView;

    open spec fn view(&self) -> KeyValueView {
        KeyValueView { enabled: self.enabled, key: self.data.0@, value: self.data.1@ }
    }
}

impl Clone for KeyValue {
    fn clone(&self) -> (copy: Self)
        ensures
            copy@ == self@,
    {
        KeyValue { enabled: self.enabled, data: (self.data.0.clone(), self.data.1.clone()) }
    }
}

pub open spec fn key_values_view(key_values: Seq<KeyValue>) -> Seq<KeyValueView> {
    key_values.map_values(|kv: KeyValue| kv@)
}

#[derive(Debug, Clone)]
pub struct BasicAuth {
    pub username: String,
    pub password: String,
}

#[derive(Debug, Clone)]
pub struct BearerToken {
    pub token: String,
}

#[derive(Debug, Clone, Copy, PartialEq, Eq, Structural)]
pub enum JwtAlgorithm {
    HS256,
    HS384,
    HS512,
    RS256,
    RS384,
    RS512,
    PS256,
    PS384,
    PS512,
    ES256,
    ES384,
    EdDSA,
}

#[derive(Debug, Clone, Copy, PartialEq, Eq, Structural)]
pub enum JwtSecretType {
    Text,
    Base64,
}

#[derive(Debug, Clone)]
pub struct JwtToken {
    pub algorithm: JwtAlgorithm,
    pub secret_type: JwtSecretType,
    pub secret: String,
    pub payload: String,
}

/// Digest authentication, with the `WWW-Authenticate` challenge it answers
#[derive(Debug, Clone)]
pub struct Digest {
    pub username: String,
    pub password: String,
    pub www_authenticate: String,
}

#[derive(Debug, Clone)]
pub enum Auth {
    NoAuth,
    BasicAuth(BasicAuth),
    BearerToken(BearerToken),
    JwtToken(JwtToken),
    Digest(Digest),
}

#[derive(Debug, Clone, Copy, PartialEq, Eq, Structural)]
pub enum Method {
    GET,
    POST,
    PUT,
    PATCH,
    DELETE,
    HEAD,
    OPTIONS,
    TRACE,
    CONNECT,
}

#[derive(Debug, Clone)]
pub enum ContentType {
    NoBody,
    File(String),
    Multipart(Vec<KeyValue>),
    Form(Vec<KeyValue>),
    Raw(String),
    Json(String),
    Xml(String),
    Html(String),
    Javascript(String),
}

#[derive(Debug, Clone)]
pub struct HttpRequest {
    pub method: Method,
    pub body: ContentType,
}

impl Default for HttpRequest {
    fn default() -> (request: Self)
        ensures
            request.method == Method::GET,
            request.body is NoBody,
    {
        HttpRequest { method: Method::GET, body: ContentType::NoBody }
    }
}

/// A websocket message as the messages tab shows it: its text and its type.
#[derive(Debug, Clone)]
pub struct WsMessage {
    /// In milliseconds since the Unix epoch
    pub timestamp: i64,
    pub sender: Sender,
    pub content: String,
    pub kind: String,
}

#[derive(Debug, Clone)]
pub struct WsRequest {
    pub messages: Vec<WsMessage>,
}

#[derive(Debug, Clone)]
pub enum Protocol {
    HttpRequest(HttpRequest),
    WsRequest(WsRequest),
    MqttRequest(MqttRequest),
}

impl Default for Protocol {
    fn default() -> (protocol: Self)
        ensures
            protocol matches Protocol::HttpRequest(http) && http.method == Method::GET
                && http.body is NoBody,
    {
        Protocol::HttpRequest(HttpRequest::default())
    }
}

#[derive(Debug, Clone, Copy, PartialEq, Eq, Structural)]
pub enum ProtocolTypeError {
    NotAnHttpRequest,
    NotAWsRequest,
    NotAnMqttRequest,
}

impl ProtocolTypeError {
    /// The error message.
    pub fn to_string(&self) -> (message: String)
        ensures
            message@ == match self {
                ProtocolTypeError::NotAnHttpRequest => "The request is not an HTTP request"@,
                ProtocolTypeError::NotAWsRequest => "The request is not an websocket request"@,
                ProtocolTypeError::NotAnMqttRequest => "The request is not an MQTT request"@,
            },
    {
        match self {
            ProtocolTypeError::NotAnHttpRequest => String::from_str("The request is not an HTTP request"),
            ProtocolTypeError::NotAWsRequest => String::from_str("The request is not an websocket request"),
            ProtocolTypeError::NotAnMqttRequest => String::from_str("The request is not an MQTT request"),
        }
    }
}

#[derive(Debug, Clone)]
pub struct RequestScripts {
    pub pre_request_script: Option<String>,
    pub post_request_script: Option<String>,
}

#[derive(Debug, Clone, Copy, PartialEq, Eq, Structural)]
pub struct RequestSettings {
    pub use_config_proxy: bool,
    pub allow_redirects: bool,
    /// In milliseconds
    pub timeout: u32,
    pub store_received_cookies: bool,
    pub pretty_print_response_content: bool,
    pub accept_invalid_certs: bool,
    pub accept_invalid_hostnames: bool,
}

impl Default for RequestSettings {
    fn default() -> (settings: Self)
        ensures
            settings == (RequestSettings {
                use_config_proxy: true,
                allow_redirects: true,
                timeout: 30000,
                store_received_cookies: true,
                pretty_print_response_content: true,
                accept_invalid_certs: false,
                accept_invalid_hostnames: false,
            }),
    {
        RequestSettings {
            use_config_proxy: true,
            allow_redirects: true,
            timeout: 30000,
            store_received_cookies: true,
            pretty_print_response_content: true,
            accept_invalid_certs: false,
            accept_invalid_hostnames: false,
        }
    }
}

#[derive(Debug, Clone)]
pub struct Request {
    pub name: String,
    pub url: String,
    pub protocol: Protocol,
    pub params: Vec<KeyValue>,
    pub auth: Auth,
    pub headers: Vec<KeyValue>,
    pub scripts: RequestScripts,
    pub settings: RequestSettings,
}

impl Default for Request {
    fn default() -> (request: Self)
        ensures
            request.name@ == Seq::<char>::empty(),
            request.url@ == Seq::<char>::empty(),
            request.protocol matches Protocol::HttpRequest(http) && http.method == Method::GET
                && http.body is NoBody,
            request.params@.len() == 0,
            request.auth is NoAuth,
            request.headers@.len() == 0,
            request.scripts.pre_request_script is None,
            request.scripts.post_request_script is None,
            request.settings == (RequestSettings {
                use_config_proxy: true,
                allow_redirects: true,
                timeout: 30000,
                store_received_cookies: true,
                pretty_print_response_content: true,
                accept_invalid_certs: false,
                accept_invalid_hostnames: false,
            }),
    {
        Request {
            name: String::new(),
            url: String::new(),
            protocol: Protocol::default(),
            params: Vec::new(),
            auth: Auth::NoAuth,
            headers: Vec::new(),
            scripts: RequestScripts { pre_request_script: None, post_request_script: None },
            settings: RequestSettings::default(),
        }
    }
}

/// The protocol a command line value names, with its default request: "HTTP", "websocket"
/// or "MQTT".
pub open spec fn protocol_named(name: Seq<char>) -> Option<ProtocolKind> {
    if name == "HTTP"@ {
        Some(ProtocolKind::Http)
    } else if name == "websocket"@ {
        Some(ProtocolKind::Ws)
    } else if name == "MQTT"@ {
        Some(ProtocolKind::Mqtt)
    } else {
        None
    }
}

pub enum ProtocolKind {
    Http,
    Ws,
    Mqtt,
}

pub open spec fn protocol_kind(protocol: Protocol) -> ProtocolKind {
    match protocol {
        Protocol::HttpRequest(_) => ProtocolKind::Http,
        Protocol::WsRequest(_) => ProtocolKind::Ws,
        Protocol::MqttRequest(_) => ProtocolKind::Mqtt,
    }
}

/// The protocol a command line value names, with a default request of it.
pub fn parse_protocol(name: &str) -> (protocol: Option<Protocol>)
    ensures
        match protocol {
            Some(p) => protocol_named(name@) == Some(protocol_kind(p)),
            None => protocol_named(name@) is None,
        },
        protocol matches Some(Protocol::HttpRequest(http)) ==> http.method == Method::GET
            && http.body is NoBody,
        protocol matches Some(Protocol::WsRequest(ws)) ==> ws.messages@.len() == 0,
{
    if crate::text::same_text(name, "HTTP") {
        Some(Protocol::default())
    } else if crate::text::same_text(name, "websocket") {
        Some(Protocol::WsRequest(WsRequest { messages: Vec::new() }))
    } else if crate::text::same_text(name, "MQTT") {
        Some(Protocol::MqttRequest(MqttRequest::default()))
    } else {
        None
    }
}

impl Request {
    pub fn get_mqtt_request(&self) -> (mqtt_request: Result<&MqttRequest, ProtocolTypeError>)
        ensures
            self.protocol matches Protocol::MqttRequest(m) ==> mqtt_request == Ok::<
                &MqttRequest,
                ProtocolTypeError,
            >(&m),
            !(self.protocol is MqttRequest) ==> mqtt_request == Err::<&MqttRequest, ProtocolTypeError>(
                ProtocolTypeError::NotAnMqttRequest,
            ),
    {
        match &self.protocol {
            Protocol::MqttRequest(mqtt_request) => Ok(mqtt_request),
            _ => Err(ProtocolTypeError::NotAnMqttRequest),
        }
    }
}

} // verus!
