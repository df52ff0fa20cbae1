//! Creating a request from the options of the `request new` command line.
use vstd::prelude::*;
use vstd::string::*;
use crate::mqtt::{MqttRequest, MqttSubscription, MqttSubscriptionView, MqttVersion, QoS, subscriptions_view};
use crate::request::{
    Auth, BasicAuth, BearerToken, ContentType, Digest, JwtAlgorithm, JwtSecretType, JwtToken,
    KeyValue, KeyValueView, Method, Protocol, Request, RequestScripts, RequestSettings,
    key_values_view,
};
use crate::text::{parse_unsigned, parse_unsigned_text, same_text};

verus! {

pub struct NewRequestCommand {
    /// Request URL
    pub url: String,
    /// Request communication protocol
    pub protocol: Protocol,
    /// Request method
    pub method: Method,
    /// Add a query param, as key then value
    pub add_param: Vec<String>,
    pub auth: AuthArgs,
    /// Do not use base headers (cache-control, user-agent, accept, accept-encoding, connection)
    pub no_base_headers: bool,
    /// Add a header, as key then value
    pub add_header: Vec<String>,
    pub body: BodyArgs,
    pub pre_request_script: Option<String>,
    pub post_request_script: Option<String>,
    pub no_proxy: bool,
    pub no_redirects: bool,
    /// Timeout (ms)
    pub timeout: u32,
    pub no_cookies: bool,
    pub no_pretty: bool,
    pub accept_invalid_certs: bool,
    pub accept_invalid_hostnames: bool,
    pub mqtt: MqttArgs,
}

/// At most one of them is used
pub struct AuthArgs {
    /// Username and password
    pub auth_basic: Vec<String>,
    /// Token
    pub auth_bearer_token: Vec<String>,
    /// Algorithm, secret type, secret and payload
    pub auth_jwt_token: Vec<String>,
    /// Username, password and WWW-Authenticate header
    pub auth_digest: Vec<String>,
}

pub struct BodyArgs {
    pub body_file: Option<String>,
    /// Multipart form values, as key then value
    pub add_body_multipart: Vec<String>,
    /// Form values, as key then value
    pub add_body_form: Vec<String>,
    pub body_raw: Option<String>,
    pub body_json: Option<String>,
    pub body_xml: Option<String>,
    pub body_html: Option<String>,
    pub body_javascript: Option<String>,
}

pub struct MqttArgs {
    pub mqtt_version: Option<MqttVersion>,
    /// Assigned by the broker when empty
    pub client_id: Option<String>,
    /// Keep the MQTT session when disconnected
    pub no_clean_session: bool,
    /// How long the broker keeps the session (s, MQTT 5)
    pub session_expiry: Option<u32>,
    /// MQTT keep alive (s)
    pub keep_alive: Option<u16>,
    /// MQTT max packet size (bytes)
    pub max_packet_size: Option<u32>,
    /// Subscriptions, as topic then QoS (0, 1 or 2)
    pub add_subscription: Vec<String>,
    pub publish_topic: Option<String>,
    pub publish_qos: Option<QoS>,
    pub publish_retain: bool,
}

impl Default for NewRequestCommand {
    /// The command with no option given.
    fn default() -> (command: Self)
        ensures
            command.url@ == Seq::<char>::empty(),
            command.protocol matches Protocol::HttpRequest(http) && http.method == Method::GET
                && http.body is NoBody,
            command.method == Method::GET,
            command.add_param@.len() == 0,
            command.auth.auth_basic@.len() == 0,
            command.auth.auth_bearer_token@.len() == 0,
            command.auth.auth_jwt_token@.len() == 0,
            command.auth.auth_digest@.len() == 0,
            !command.no_base_headers,
            command.add_header@.len() == 0,
            body_of(command.body) is NoBody,
            command.body.add_body_multipart@.len() == 0,
            command.body.add_body_form@.len() == 0,
            command.pre_request_script is None,
            command.post_request_script is None,
            !command.no_proxy,
            !command.no_redirects,
            command.timeout == 30000,
            !command.no_cookies,
            !command.no_pretty,
            !command.accept_invalid_certs,
            !command.accept_invalid_hostnames,
            !command.mqtt.spec_is_used(),
    {
        NewRequestCommand {
            url: String::new(),
            protocol: Protocol::default(),
            method: Method::GET,
            add_param: Vec::new(),
            auth: AuthArgs {
                auth_basic: Vec::new(),
                auth_bearer_token: Vec::new(),
                auth_jwt_token: Vec::new(),
                auth_digest: Vec::new(),
            },
            no_base_headers: false,
            add_header: Vec::new(),
            body: BodyArgs {
                body_file: None,
                add_body_multipart: Vec::new(),
                add_body_form: Vec::new(),
                body_raw: None,
                body_json: None,
                body_xml: None,
                body_html: None,
                body_javascript: None,
            },
            pre_request_script: None,
            post_request_script: None,
            no_proxy: false,
            no_redirects: false,
            timeout: 30000,
            no_cookies: false,
            no_pretty: false,
            accept_invalid_certs: false,
            accept_invalid_hostnames: false,
            mqtt: MqttArgs {
                mqtt_version: None,
                client_id: None,
                no_clean_session: false,
                session_expiry: None,
                keep_alive: None,
                max_packet_size: None,
                add_subscription: Vec::new(),
                publish_topic: None,
                publish_qos: None,
                publish_retain: false,
            },
        }
    }
}

impl MqttArgs {
    pub open spec fn spec_is_used(self) -> bool {
        ||| self.mqtt_version is Some
        ||| self.client_id is Some
        ||| self.no_clean_session
        ||| self.session_expiry is Some
        ||| self.keep_alive is Some
        ||| self.max_packet_size is Some
        ||| self.add_subscription@.len() != 0
        ||| self.publish_topic is Some
        ||| self.publish_qos is Some
        ||| self.publish_retain
    }

    pub fn is_used(&self) -> (used: bool)
        ensures
            used == self.spec_is_used(),
    {
        self.mqtt_version.is_some() || self.client_id.is_some() || self.no_clean_session
            || self.session_expiry.is_some() || self.keep_alive.is_some()
            || self.max_packet_size.is_some() || !self.add_subscription.is_empty()
            || self.publish_topic.is_some() || self.publish_qos.is_some() || self.publish_retain
    }
}

/* VALUES OF THE COMMAND LINE */

/// The QoS a command line value names: "0", "1" or "2".
pub open spec fn qos_named(name: Seq<char>) -> Option<QoS> {
    if name == "0"@ {
        Some(QoS::AtMostOnce)
    } else if name == "1"@ {
        Some(QoS::AtLeastOnce)
    } else if name == "2"@ {
        Some(QoS::ExactlyOnce)
    } else {
        None
    }
}

/// The MQTT version a command line value names: "3.1.1" or "5".
pub open spec fn version_named(name: Seq<char>) -> Option<MqttVersion> {
    if name == "3.1.1"@ {
        Some(MqttVersion::V3_1_1)
    } else if name == "5"@ {
        Some(MqttVersion::V5)
    } else {
        None
    }
}

pub fn parse_qos(name: &str) -> (qos: Option<QoS>)
    ensures
        qos == qos_named(name@),
{
    if same_text(name, "0") {
        Some(QoS::AtMostOnce)
    } else if same_text(name, "1") {
        Some(QoS::AtLeastOnce)
    } else if same_text(name, "2") {
        Some(QoS::ExactlyOnce)
    } else {
        None
    }
}

pub fn parse_mqtt_version(name: &str) -> (version: Option<MqttVersion>)
    ensures
        version == version_named(name@),
{
    if same_text(name, "3.1.1") {
        Some(MqttVersion::V3_1_1)
    } else if same_text(name, "5") {
        Some(MqttVersion::V5)
    } else {
        None
    }
}

/// A keep alive value: a number of seconds that fits in 16 bits.
pub fn parse_keep_alive(text: &str) -> (keep_alive: Option<u16>)
    ensures
        keep_alive matches Some(k) ==> parse_unsigned(text@, 65535) == Some(k as nat),
        keep_alive is None ==> parse_unsigned(text@, 65535) is None,
{
    match parse_unsigned_text(text, 65535) {
        Some(value) => Some(value as u16),
        None => None,
    }
}

/// A max packet size value: a positive number of bytes that fits in 32 bits.
pub fn parse_max_packet_size(text: &str) -> (max_packet_size: Option<u32>)
    ensures
        max_packet_size matches Some(m) ==> m > 0 && parse_unsigned(text@, u32::MAX as nat) == Some(
            m as nat,
        ),
        max_packet_size is None ==> parse_unsigned(text@, u32::MAX as nat) is None || parse_unsigned(
            text@,
            u32::MAX as nat,
        ) == Some(0nat),
{
    match parse_unsigned_text(text, 0xFFFF_FFFF) {
        Some(value) if value > 0 => Some(value as u32),
        _ => None,
    }
}

/* KEY VALUES */

/// Values given as key then value, in pairs.
pub open spec fn key_value_pairs(values: Seq<Seq<char>>) -> Seq<KeyValueView> {
    Seq::new(
        values.len() / 2,
        |i: int| KeyValueView { enabled: true, key: values[2 * i], value: values[2 * i + 1] },
    )
}

pub open spec fn strings_view(strings: Seq<String>) -> Seq<Seq<char>> {
    strings.map_values(|s: String| s@)
}

fn string_array_to_key_value_array(string_array: Vec<String>) -> (key_value_array: Vec<KeyValue>)
    requires
        string_array@.len() % 2 == 0,
    ensures
        key_values_view(key_value_array@) == key_value_pairs(strings_view(string_array@)),
{
    let mut key_value_array: Vec<KeyValue> = Vec::new();
    let ghost values = strings_view(string_array@);
    let mut i: usize = 0;
    while i < string_array.len()
        invariant
            string_array@.len() % 2 == 0,
            i % 2 == 0,
            i <= string_array@.len(),
            values == strings_view(string_array@),
            key_value_array@.len() == i / 2,
            forall|k: int|
                0 <= k < i / 2 ==> #[trigger] key_value_array@[k]@ == (KeyValueView {
                    enabled: true,
                    key: values[2 * k],
                    value: values[2 * k + 1],
                }),
        decreases string_array@.len() - i,
    {
        key_value_array.push(
            KeyValue {
                enabled: true,
                data: (string_array[i].clone(), string_array[i + 1].clone()),
            },
        );
        i = i + 2;
    }
    assert(key_values_view(key_value_array@) =~= key_value_pairs(values));
    key_value_array
}

/* AUTH */

/// The JWT algorithm a command line value names, ignoring case.
pub open spec fn jwt_algorithm_named(name: Seq<char>) -> Option<JwtAlgorithm> {
    let n = ascii_lowercase(name);
    if n == "hs256"@ { Some(JwtAlgorithm::HS256) }
    else if n == "hs384"@ { Some(JwtAlgorithm::HS384) }
    else if n == "hs512"@ { Some(JwtAlgorithm::HS512) }
    else if n == "rs256"@ { Some(JwtAlgorithm::RS256) }
    else if n == "rs384"@ { Some(JwtAlgorithm::RS384) }
    else if n == "rs512"@ { Some(JwtAlgorithm::RS512) }
    else if n == "ps256"@ { Some(JwtAlgorithm::PS256) }
    else if n == "ps384"@ { Some(JwtAlgorithm::PS384) }
    else if n == "ps512"@ { Some(JwtAlgorithm::PS512) }
    else if n == "es256"@ { Some(JwtAlgorithm::ES256) }
    else if n == "es384"@ { Some(JwtAlgorithm::ES384) }
    else if n == "eddsa"@ { Some(JwtAlgorithm::EdDSA) }
    else { None }
}

/// The JWT secret type a command line value names, ignoring case.
pub open spec fn jwt_secret_type_named(name: Seq<char>) -> Option<JwtSecretType> {
    let n = ascii_lowercase(name);
    if n == "text"@ {
        Some(JwtSecretType::Text)
    } else if n == "base64"@ {
        Some(JwtSecretType::Base64)
    } else {
        None
    }
}

pub open spec fn lowercase_char(c: char) -> char {
    if 'A' <= c <= 'Z' {
        ((c as u32) + 32) as char
    } else {
        c
    }
}

/// The text with its ASCII capitals made small.
pub open spec fn ascii_lowercase(s: Seq<char>) -> Seq<char> {
    s.map_values(|c: char| lowercase_char(c))
}

fn lowercase(s: &str) -> (r: String)
    ensures
        r@ == ascii_lowercase(s@),
{
    let chars = crate::text::chars_of(s);
    let mut r = String::new();
    let mut i: usize = 0;
    while i < chars.len()
        invariant
            chars@ == s@,
            i <= chars@.len(),
            r@ == ascii_lowercase(s@.subrange(0, i as int)),
        decreases chars@.len() - i,
    {
        let c = chars[i];
        let l = if 'A' <= c && c <= 'Z' {
            match char_from_u32(c as u32 + 32) {
                Some(lower) => lower,
                None => c,
            }
        } else {
            c
        };
        crate::text::push_char(&mut r, l);
        i = i + 1;
        assert(r@ =~= ascii_lowercase(s@.subrange(0, i as int)));
    }
    assert(s@.subrange(0, chars@.len() as int) =~= s@);
    r
}

/// Calls `char::from_u32`, which gives the character of a Unicode scalar value, and None
/// for the numbers that are none (surrogates and numbers over 0x10FFFF).
#[verifier::external_body]
fn char_from_u32(code: u32) -> (c: Option<char>)
    ensures
        c matches Some(ch) ==> ch == code as char,
        (code < 0xD800 || 0xE000 <= code <= 0x10FFFF) ==> c is Some,
{
    char::from_u32(code)
}

fn parse_jwt_algorithm(name: &str) -> (algorithm: Option<JwtAlgorithm>)
    ensures
        algorithm == jwt_algorithm_named(name@),
{
    let n = lowercase(name);
    let n = n.as_str();
    if same_text(n, "hs256") { Some(JwtAlgorithm::HS256) }
    else if same_text(n, "hs384") { Some(JwtAlgorithm::HS384) }
    else if same_text(n, "hs512") { Some(JwtAlgorithm::HS512) }
    else if same_text(n, "rs256") { Some(JwtAlgorithm::RS256) }
    else if same_text(n, "rs384") { Some(JwtAlgorithm::RS384) }
    else if same_text(n, "rs512") { Some(JwtAlgorithm::RS512) }
    else if same_text(n, "ps256") { Some(JwtAlgorithm::PS256) }
    else if same_text(n, "ps384") { Some(JwtAlgorithm::PS384) }
    else if same_text(n, "ps512") { Some(JwtAlgorithm::PS512) }
    else if same_text(n, "es256") { Some(JwtAlgorithm::ES256) }
    else if same_text(n, "es384") { Some(JwtAlgorithm::ES384) }
    else if same_text(n, "eddsa") { Some(JwtAlgorithm::EdDSA) }
    else { None }
}

fn parse_jwt_secret_type(name: &str) -> (secret_type: Option<JwtSecretType>)
    ensures
        secret_type == jwt_secret_type_named(name@),
{
    let n = lowercase(name);
    if same_text(n.as_str(), "text") {
        Some(JwtSecretType::Text)
    } else if same_text(n.as_str(), "base64") {
        Some(JwtSecretType::Base64)
    } else {
        None
    }
}

/// The message of a value that names no variant.
pub open spec fn invalid_variant_text(name: Seq<char>) -> Seq<char> {
    "invalid variant: "@ + name
}

fn invalid_variant(name: &String) -> (message: String)
    ensures
        message@ == invalid_variant_text(name@),
{
    let mut message = String::from_str("invalid variant: ");
    message.append(name.as_str());
    message
}

/// The number of values clap collects for each option of the auth group.
pub open spec fn auth_args_complete(auth_args: AuthArgs) -> bool {
    &&& auth_args.auth_basic@.len() == 0 || auth_args.auth_basic@.len() == 2
    &&& auth_args.auth_bearer_token@.len() == 0 || auth_args.auth_bearer_token@.len() == 1
    &&& auth_args.auth_jwt_token@.len() == 0 || auth_args.auth_jwt_token@.len() == 4
    &&& auth_args.auth_digest@.len() == 0 || auth_args.auth_digest@.len() == 3
}

/// The auth the options give: the first option used, or no auth. Only the JWT option can be
/// refused, for its algorithm or its secret type.
pub open spec fn auth_of(auth_args: AuthArgs) -> Result<AuthView, Seq<char>> {
    if auth_args.auth_basic@.len() != 0 {
        Ok(AuthView::Basic(auth_args.auth_basic@[0]@, auth_args.auth_basic@[1]@))
    } else if auth_args.auth_bearer_token@.len() != 0 {
        Ok(AuthView::Bearer(auth_args.auth_bearer_token@[0]@))
    } else if auth_args.auth_jwt_token@.len() != 0 {
        let values = auth_args.auth_jwt_token@;
        match jwt_algorithm_named(values[0]@) {
            None => Err(invalid_variant_text(values[0]@)),
            Some(algorithm) => match jwt_secret_type_named(values[1]@) {
                None => Err(invalid_variant_text(values[1]@)),
                Some(secret_type) => Ok(AuthView::Jwt(algorithm, secret_type, values[2]@, values[3]@)),
            },
        }
    } else if auth_args.auth_digest@.len() != 0 {
        let values = auth_args.auth_digest@;
        Ok(AuthView::Digest(values[0]@, values[1]@, values[2]@))
    } else {
        Ok(AuthView::NoAuth)
    }
}

pub enum AuthView {
    NoAuth,
    Basic(Seq<char>, Seq<char>),
    Bearer(Seq<char>),
    Jwt(JwtAlgorithm, JwtSecretType, Seq<char>, Seq<char>),
    Digest(Seq<char>, Seq<char>, Seq<char>),
}

pub open spec fn auth_view(auth: Auth) -> AuthView {
    match auth {
        Auth::NoAuth => AuthView::NoAuth,
        Auth::BasicAuth(b) => AuthView::Basic(b.username@, b.password@),
        Auth::BearerToken(b) => AuthView::Bearer(b.token@),
        Auth::JwtToken(j) => AuthView::Jwt(j.algorithm, j.secret_type, j.secret@, j.payload@),
        Auth::Digest(d) => AuthView::Digest(d.username@, d.password@, d.www_authenticate@),
    }
}

fn get_auth_from_auth_args(auth_args: AuthArgs) -> (auth: Result<Auth, String>)
    requires
        auth_args_complete(auth_args),
    ensures
        match auth {
            Ok(a) => auth_of(auth_args) == Ok::<AuthView, Seq<char>>(auth_view(a)),
            Err(e) => auth_of(auth_args) == Err::<AuthView, Seq<char>>(e@),
        },
{
    if !auth_args.auth_basic.is_empty() {
        Ok(Auth::BasicAuth(BasicAuth {
            username: auth_args.auth_basic[0].clone(),
            password: auth_args.auth_basic[1].clone(),
        }))
    } else if !auth_args.auth_bearer_token.is_empty() {
        Ok(Auth::BearerToken(BearerToken { token: auth_args.auth_bearer_token[0].clone() }))
    } else if !auth_args.auth_jwt_token.is_empty() {
        let algorithm = match parse_jwt_algorithm(auth_args.auth_jwt_token[0].as_str()) {
            Some(algorithm) => algorithm,
            None => return Err(invalid_variant(&auth_args.auth_jwt_token[0])),
        };
        let secret_type = match parse_jwt_secret_type(auth_args.auth_jwt_token[1].as_str()) {
            Some(secret_type) => secret_type,
            None => return Err(invalid_variant(&auth_args.auth_jwt_token[1])),
        };
        Ok(Auth::JwtToken(JwtToken {
            algorithm,
            secret_type,
            secret: auth_args.auth_jwt_token[2].clone(),
            payload: auth_args.auth_jwt_token[3].clone(),
        }))
    } else if !auth_args.auth_digest.is_empty() {
        Ok(Auth::Digest(Digest {
            username: auth_args.auth_digest[0].clone(),
            password: auth_args.auth_digest[1].clone(),
            www_authenticate: auth_args.auth_digest[2].clone(),
        }))
    } else {
        Ok(Auth::NoAuth)
    }
}

/* BODY */

pub enum ContentTypeView {
    NoBody,
    File(Seq<char>),
    Multipart(Seq<KeyValueView>),
    Form(Seq<KeyValueView>),
    Raw(Seq<char>),
    Json(Seq<char>),
    Xml(Seq<char>),
    Html(Seq<char>),
    Javascript(Seq<char>),
}

pub open spec fn content_type_view(body: ContentType) -> ContentTypeView {
    match body {
        ContentType::NoBody => ContentTypeView::NoBody,
        ContentType::File(s) => ContentTypeView::File(s@),
        ContentType::Multipart(kv) => ContentTypeView::Multipart(key_values_view(kv@)),
        ContentType::Form(kv) => ContentTypeView::Form(key_values_view(kv@)),
        ContentType::Raw(s) => ContentTypeView::Raw(s@),
        ContentType::Json(s) => ContentTypeView::Json(s@),
        ContentType::Xml(s) => ContentTypeView::Xml(s@),
        ContentType::Html(s) => ContentTypeView::Html(s@),
        ContentType::Javascript(s) => ContentTypeView::Javascript(s@),
    }
}

pub open spec fn body_args_complete(body_args: BodyArgs) -> bool {
    &&& body_args.add_body_multipart@.len() % 2 == 0
    &&& body_args.add_body_form@.len() % 2 == 0
}

/// The body the options give: the first option used.
pub open spec fn body_of(body_args: BodyArgs) -> ContentTypeView {
    if body_args.body_file is Some {
        ContentTypeView::File(body_args.body_file->0@)
    } else if body_args.add_body_multipart@.len() != 0 {
        ContentTypeView::Multipart(key_value_pairs(strings_view(body_args.add_body_multipart@)))
    } else if body_args.add_body_form@.len() != 0 {
        ContentTypeView::Form(key_value_pairs(strings_view(body_args.add_body_form@)))
    } else if body_args.body_raw is Some {
        ContentTypeView::Raw(body_args.body_raw->0@)
    } else if body_args.body_json is Some {
        ContentTypeView::Json(body_args.body_json->0@)
    } else if body_args.body_xml is Some {
        ContentTypeView::Xml(body_args.body_xml->0@)
    } else if body_args.body_html is Some {
        ContentTypeView::Html(body_args.body_html->0@)
    } else if body_args.body_javascript is Some {
        ContentTypeView::Javascript(body_args.body_javascript->0@)
    } else {
        ContentTypeView::NoBody
    }
}

fn get_content_type_from_body_args(body_args: BodyArgs) -> (body: ContentType)
    requires
        body_args_complete(body_args),
    ensures
        content_type_view(body) == body_of(body_args),
{
    if let Some(file_path) = &body_args.body_file {
        return ContentType::File(file_path.clone());
    } else if !body_args.add_body_multipart.is_empty() {
        let multipart_key_values = string_array_to_key_value_array(body_args.add_body_multipart);
        return ContentType::Multipart(multipart_key_values);
    } else if !body_args.add_body_form.is_empty() {
        let form_key_values = string_array_to_key_value_array(body_args.add_body_form);
        return ContentType::Form(form_key_values);
    } else if let Some(raw) = &body_args.body_raw {
        return ContentType::Raw(raw.clone());
    } else if let Some(json) = &body_args.body_json {
        return ContentType::Json(json.clone());
    } else if let Some(xml) = &body_args.body_xml {
        return ContentType::Xml(xml.clone());
    } else if let Some(html) = &body_args.body_html {
        return ContentType::Html(html.clone());
    } else if let Some(javascript) = &body_args.body_javascript {
        return ContentType::Javascript(javascript.clone());
    } else {
        return ContentType::NoBody;
    }
}

/* MQTT OPTIONS */

/// The subscriptions the options add, as topic then QoS, up to the first invalid QoS.
pub open spec fn added_subscriptions(values: Seq<Seq<char>>, count: nat) -> Seq<MqttSubscriptionView>
    decreases count,
{
    if count == 0 {
        seq![]
    } else {
        let rest = added_subscriptions(values, (count - 1) as nat);
        let i = 2 * (count - 1) as int;
        rest.push(MqttSubscriptionView {
            enabled: true,
            topic: values[i],
            qos: qos_named(values[i + 1])->0,
        })
    }
}

/// Whether the subscription at `i`, counted in pairs, has a valid QoS.
pub open spec fn qos_valid_at(values: Seq<Seq<char>>, i: int) -> bool {
    qos_named(values[2 * i + 1]) is Some
}

/// The index of the first subscription, counted in pairs, whose QoS is invalid.
pub open spec fn first_invalid_qos(values: Seq<Seq<char>>) -> Option<int> {
    if exists|i: int| 0 <= i < values.len() / 2 && !#[trigger] qos_valid_at(values, i) {
        Some(
            choose|i: int|
                0 <= i < values.len() / 2 && !#[trigger] qos_valid_at(values, i) && forall|j: int|
                    0 <= j < i ==> #[trigger] qos_valid_at(values, j),
        )
    } else {
        None
    }
}

/// The message of an invalid subscription QoS.
pub open spec fn invalid_qos_text(value: Seq<char>) -> Seq<char> {
    "Invalid QoS \""@ + value + "\", expected 0, 1 or 2"@
}

/// The message of a zero max packet size.
pub open spec fn zero_max_packet_size_text() -> Seq<char> {
    "Invalid max packet size \"0\", expected a positive number of bytes"@
}

/// The MQTT request after the options are applied, with the first `count` subscriptions added.
pub open spec fn mqtt_args_applied(before: MqttRequest, args: MqttArgs, after: MqttRequest, count: nat, publish: bool) -> bool {
    let values = strings_view(args.add_subscription@);
    &&& after.version == (match args.mqtt_version {
        Some(version) => version,
        None => before.version,
    })
    &&& after.client_id@ == (match args.client_id {
        Some(client_id) => client_id@,
        None => before.client_id@,
    })
    &&& after.clean_session == !args.no_clean_session
    &&& after.session_expiry_interval == (match args.session_expiry {
        Some(s) => s,
        None => before.session_expiry_interval,
    })
    &&& after.keep_alive == (match args.keep_alive {
        Some(k) => k,
        None => before.keep_alive,
    })
    &&& after.max_packet_size == (match args.max_packet_size {
        Some(m) => m,
        None => before.max_packet_size,
    })
    &&& subscriptions_view(after.subscriptions@) == subscriptions_view(before.subscriptions@)
        + added_subscriptions(values, count)
    &&& if publish {
        &&& after.publish.topic@ == (match args.publish_topic {
            Some(topic) => topic@,
            None => before.publish.topic@,
        })
        &&& after.publish.qos == (match args.publish_qos {
            Some(qos) => qos,
            None => before.publish.qos,
        })
        &&& after.publish.retain == args.publish_retain
    } else {
        &&& after.publish.topic@ == before.publish.topic@
        &&& after.publish.qos == before.publish.qos
        &&& after.publish.retain == before.publish.retain
    }
    &&& after.messages == before.messages
    &&& after.payload == before.payload
    &&& after.connection == before.connection
    &&& after.is_connected == before.is_connected
    &&& after.broker_max_packet_size == before.broker_max_packet_size
}

fn set_mqtt_request_from_mqtt_args(mqtt_request: &mut MqttRequest, mqtt_args: MqttArgs) -> (result: Result<(), String>)
    requires
        mqtt_args.add_subscription@.len() % 2 == 0,
    ensures
        mqtt_args.max_packet_size == Some(0u32) ==> (result matches Err(e) && e@
            == zero_max_packet_size_text() && *final(mqtt_request) == *old(mqtt_request)),
        mqtt_args.max_packet_size != Some(0u32) ==> ({
            let values = strings_view(mqtt_args.add_subscription@);
            match first_invalid_qos(values) {
                None => result is Ok && mqtt_args_applied(
                    *old(mqtt_request),
                    mqtt_args,
                    *final(mqtt_request),
                    values.len() / 2,
                    true,
                ),
                Some(i) => result matches Err(e) && e@ == invalid_qos_text(values[2 * i + 1])
                    && mqtt_args_applied(*old(mqtt_request), mqtt_args, *final(mqtt_request), i as nat, false),
            }
        }),
{
    let ghost values = strings_view(mqtt_args.add_subscription@);
    // A zero limit is a protocol error in MQTT 5 and would refuse every packet in 3.1.1
    if let Some(0) = mqtt_args.max_packet_size {
        return Err(String::from_str("Invalid max packet size \"0\", expected a positive number of bytes"));
    }
    if let Some(version) = mqtt_args.mqtt_version {
        mqtt_request.version = version;
    }
    if let Some(client_id) = mqtt_args.client_id {
        mqtt_request.client_id = client_id;
    }
    mqtt_request.clean_session = !mqtt_args.no_clean_session;
    if let Some(session_expiry) = mqtt_args.session_expiry {
        mqtt_request.session_expiry_interval = session_expiry;
    }
    if let Some(keep_alive) = mqtt_args.keep_alive {
        mqtt_request.keep_alive = keep_alive;
    }
    if let Some(max_packet_size) = mqtt_args.max_packet_size {
        mqtt_request.max_packet_size = max_packet_size;
    }
    let mut i: usize = 0;
    while i < mqtt_args.add_subscription.len()
        invariant
            mqtt_args.add_subscription@.len() % 2 == 0,
            mqtt_args.max_packet_size != Some(0u32),
            values == strings_view(mqtt_args.add_subscription@),
            i % 2 == 0,
            i <= mqtt_args.add_subscription@.len(),
            forall|j: int| 0 <= j < i / 2 ==> #[trigger] qos_valid_at(values, j),
            mqtt_args_applied(*old(mqtt_request), mqtt_args, *mqtt_request, (i / 2) as nat, false),
        decreases mqtt_args.add_subscription@.len() - i,
    {
        let ghost before = subscriptions_view(mqtt_request.subscriptions@);
        let topic = &mqtt_args.add_subscription[i];
        let qos_name = &mqtt_args.add_subscription[i + 1];
        let qos = match parse_qos(qos_name.as_str()) {
            Some(qos) => qos,
            None => {
                let mut message = String::from_str("Invalid QoS \"");
                message.append(qos_name.as_str());
                message.append("\", expected 0, 1 or 2");
                proof {
                    let k = (i / 2) as int;
                    assert(values[2 * k + 1] == qos_name@);
                    assert(!qos_valid_at(values, k));
                    let c = choose|c: int|
                        0 <= c < values.len() / 2 && !#[trigger] qos_valid_at(values, c) && forall|j: int|
                            0 <= j < c ==> #[trigger] qos_valid_at(values, j);
                    assert(0 <= c < values.len() / 2 && !qos_valid_at(values, c) && forall|j: int|
                        0 <= j < c ==> #[trigger] qos_valid_at(values, j)) by {
                        assert(forall|j: int| 0 <= j < k ==> #[trigger] qos_valid_at(values, j));
                    }
                    if c < k {
                        assert(qos_valid_at(values, c));
                    } else if c > k {
                        assert(qos_valid_at(values, k));
                    }
                    assert(first_invalid_qos(values) == Some(k));
                }
                return Err(message);
            },
        };
        mqtt_request.subscriptions.push(MqttSubscription { enabled: true, topic: topic.clone(), qos });
        proof {
            let k = (i / 2) as int;
            assert(values[2 * k] == topic@);
            assert(values[2 * k + 1] == qos_name@);
            assert(subscriptions_view(mqtt_request.subscriptions@) =~= before.push(
                MqttSubscriptionView { enabled: true, topic: topic@, qos },
            ));
            assert(qos_valid_at(values, k));
            assert(added_subscriptions(values, (k + 1) as nat) == added_subscriptions(values, k as nat).push(
                MqttSubscriptionView { enabled: true, topic: values[2 * k], qos: qos_named(values[2 * k + 1])->0 },
            ));
        }
        i = i + 2;
    }
    assert(first_invalid_qos(values) is None) by {
        assert(forall|j: int| 0 <= j < values.len() / 2 ==> #[trigger] qos_valid_at(values, j));
    }
    if let Some(publish_topic) = mqtt_args.publish_topic {
        mqtt_request.publish.topic = publish_topic;
    }
    if let Some(publish_qos) = mqtt_args.publish_qos {
        mqtt_request.publish.qos = publish_qos;
    }
    mqtt_request.publish.retain = mqtt_args.publish_retain;
    Ok(())
}

/* NEW REQUEST */

/// The headers a new HTTP or websocket request starts with.
pub open spec fn default_headers_view() -> Seq<KeyValueView> {
    seq![
        KeyValueView { enabled: true, key: "cache-control"@, value: "no-cache"@ },
        KeyValueView { enabled: true, key: "user-agent"@, value: "ATAC"@ },
        KeyValueView { enabled: true, key: "accept"@, value: "*/*"@ },
        KeyValueView { enabled: true, key: "accept-encoding"@, value: "gzip, deflate, br"@ },
        KeyValueView { enabled: true, key: "connection"@, value: "keep-alive"@ },
    ]
}

fn header(key: &str, value: &str) -> (header: KeyValue)
    ensures
        header@ == (KeyValueView { enabled: true, key: key@, value: value@ }),
{
    KeyValue { enabled: true, data: (String::from_str(key), String::from_str(value)) }
}

pub fn default_headers() -> (headers: Vec<KeyValue>)
    ensures
        key_values_view(headers@) == default_headers_view(),
{
    let mut headers = Vec::new();
    headers.push(header("cache-control", "no-cache"));
    headers.push(header("user-agent", "ATAC"));
    headers.push(header("accept", "*/*"));
    headers.push(header("accept-encoding", "gzip, deflate, br"));
    headers.push(header("connection", "keep-alive"));
    assert(key_values_view(headers@) =~= default_headers_view());
    headers
}

/// The number of values clap collects for each option of the command.
pub open spec fn command_complete(command: NewRequestCommand) -> bool {
    &&& command.add_param@.len() % 2 == 0
    &&& command.add_header@.len() % 2 == 0
    &&& auth_args_complete(command.auth)
    &&& body_args_complete(command.body)
    &&& command.mqtt.add_subscription@.len() % 2 == 0
}

/// The reason a command is refused, if it is.
pub open spec fn new_request_error(command: NewRequestCommand) -> Option<Seq<char>> {
    match auth_of(command.auth) {
        Err(error) => Some(error),
        Ok(_) => if command.mqtt.spec_is_used() && !(command.protocol is MqttRequest) {
            Some("MQTT options can only be used with an MQTT request"@)
        } else {
            match command.protocol {
                Protocol::HttpRequest(_) => None,
                Protocol::WsRequest(_) => if command.method != Method::GET {
                    Some("Setting a method with a websocket request is incompatible"@)
                } else if !(body_of(command.body) is NoBody) {
                    Some("Setting a body with a websocket request body is incompatible"@)
                } else {
                    None
                },
                Protocol::MqttRequest(_) => if command.mqtt.max_packet_size == Some(0u32) {
                    Some(zero_max_packet_size_text())
                } else {
                    let values = strings_view(command.mqtt.add_subscription@);
                    match first_invalid_qos(values) {
                        Some(i) => Some(invalid_qos_text(values[2 * i + 1])),
                        None => if command.method != Method::GET {
                            Some("Setting a method with an MQTT request is incompatible"@)
                        } else if !(body_of(command.body) is NoBody) {
                            Some("Setting a body with an MQTT request is incompatible"@)
                        } else if command.add_header@.len() != 0 {
                            Some("Setting a header with an MQTT request is incompatible"@)
                        } else {
                            None
                        },
                    }
                },
            }
        },
    }
}

pub open spec fn option_string_view(s: Option<String>) -> Option<Seq<char>> {
    match s {
        Some(s) => Some(s@),
        None => None,
    }
}

/// The request that an accepted command creates.
pub open spec fn new_request_made(name: Seq<char>, command: NewRequestCommand, request: Request) -> bool {
    &&& request.name@ == name
    &&& request.url@ == command.url@
    &&& key_values_view(request.params@) == key_value_pairs(strings_view(command.add_param@))
    &&& auth_of(command.auth) == Ok::<AuthView, Seq<char>>(auth_view(request.auth))
    &&& key_values_view(request.headers@) == (if command.no_base_headers
        || command.protocol is MqttRequest {
        Seq::<KeyValueView>::empty()
    } else {
        default_headers_view()
    }) + key_value_pairs(strings_view(command.add_header@))
    &&& match command.protocol {
        Protocol::HttpRequest(_) => request.protocol matches Protocol::HttpRequest(http)
            && http.method == command.method && content_type_view(http.body) == body_of(command.body),
        Protocol::WsRequest(_) => request.protocol == command.protocol,
        Protocol::MqttRequest(before) => request.protocol matches Protocol::MqttRequest(after)
            && mqtt_args_applied(
            before,
            command.mqtt,
            after,
            strings_view(command.mqtt.add_subscription@).len() / 2,
            true,
        ),
    }
    &&& option_string_view(request.scripts.pre_request_script) == option_string_view(
        command.pre_request_script,
    )
    &&& option_string_view(request.scripts.post_request_script) == option_string_view(
        command.post_request_script,
    )
    &&& request.settings == (RequestSettings {
        use_config_proxy: !command.no_proxy,
        allow_redirects: !command.no_redirects,
        timeout: command.timeout,
        store_received_cookies: !command.no_cookies,
        pretty_print_response_content: !command.no_pretty,
        accept_invalid_certs: command.accept_invalid_certs,
        accept_invalid_hostnames: command.accept_invalid_hostnames,
    })
}

pub fn create_request_from_new_request_command(request_name: String, new_request_command: NewRequestCommand) -> (request: Result<Request, String>)
    requires
        command_complete(new_request_command),
    ensures
        match request {
            Ok(r) => new_request_error(new_request_command) is None && new_request_made(
                request_name@,
                new_request_command,
                r,
            ),
            Err(e) => new_request_error(new_request_command) == Some(e@),
        },
{
    let ghost command = new_request_command;
    let NewRequestCommand {
        url,
        protocol,
        method,
        add_param,
        auth,
        no_base_headers,
        add_header,
        body,
        pre_request_script,
        post_request_script,
        no_proxy,
        no_redirects,
        timeout,
        no_cookies,
        no_pretty,
        accept_invalid_certs,
        accept_invalid_hostnames,
        mqtt,
    } = new_request_command;

    let params = string_array_to_key_value_array(add_param);
    let auth = match get_auth_from_auth_args(auth) {
        Ok(auth) => auth,
        Err(error) => return Err(error),
    };
    let headers = string_array_to_key_value_array(add_header);
    let body = get_content_type_from_body_args(body);

    // MQTT has no headers
    let is_mqtt = match &protocol {
        Protocol::MqttRequest(_) => true,
        _ => false,
    };
    let mut all_headers = if no_base_headers || is_mqtt {
        Vec::new()
    } else {
        default_headers()
    };

    if mqtt.is_used() && !is_mqtt {
        return Err(String::from_str("MQTT options can only be used with an MQTT request"));
    }

    let protocol = match protocol {
        Protocol::HttpRequest(mut http_request) => {
            http_request.method = method;
            http_request.body = body;
            Protocol::HttpRequest(http_request)
        },
        Protocol::WsRequest(ws_request) => {
            match method {
                Method::GET => {},
                _ => return Err(String::from_str("Setting a method with a websocket request is incompatible")),
            }
            match body {
                ContentType::NoBody => {},
                _ => return Err(String::from_str("Setting a body with a websocket request body is incompatible")),
            }
            Protocol::WsRequest(ws_request)
        },
        Protocol::MqttRequest(mut mqtt_request) => {
            match set_mqtt_request_from_mqtt_args(&mut mqtt_request, mqtt) {
                Ok(()) => {},
                Err(error) => return Err(error),
            }
            match method {
                Method::GET => {},
                _ => return Err(String::from_str("Setting a method with an MQTT request is incompatible")),
            }
            match body {
                ContentType::NoBody => {},
                _ => return Err(String::from_str("Setting a body with an MQTT request is incompatible")),
            }
            assert(key_values_view(headers@).len() == headers@.len());
            if !headers.is_empty() {
                return Err(String::from_str("Setting a header with an MQTT request is incompatible"));
            }
            Protocol::MqttRequest(mqtt_request)
        },
    };

    let ghost base = key_values_view(all_headers@);
    let mut headers = headers;
    all_headers.append(&mut headers);
    assert(key_values_view(all_headers@) =~= base + key_value_pairs(strings_view(command.add_header@)));

    Ok(
        Request {
            name: request_name,
            url,
            protocol,
            params,
            auth,
            headers: all_headers,
            scripts: RequestScripts { pre_request_script, post_request_script },
            settings: RequestSettings {
                use_config_proxy: !no_proxy,
                allow_redirects: !no_redirects,
                timeout,
                store_received_cookies: !no_cookies,
                pretty_print_response_content: !no_pretty,
                accept_invalid_certs,
                accept_invalid_hostnames,
            },
        },
    )
}

/// With `--no-base-headers`, or for an MQTT request, the created request's headers are
/// exactly the added ones, as many as the pairs given; otherwise they are the five default
/// headers, then the added ones.
pub proof fn lemma_base_headers_only_when_asked(name: Seq<char>, command: NewRequestCommand, request: Request)
    requires
        new_request_made(name, command, request),
    ensures
        command.no_base_headers ==> key_values_view(request.headers@) == key_value_pairs(
            strings_view(command.add_header@),
        ) && request.headers@.len() == command.add_header@.len() / 2,
        command.protocol is MqttRequest ==> key_values_view(request.headers@) == key_value_pairs(
            strings_view(command.add_header@),
        ),
        !command.no_base_headers && !(command.protocol is MqttRequest) ==> {
            &&& request.headers@.len() == 5 + command.add_header@.len() / 2
            &&& key_values_view(request.headers@).subrange(0, 5) == default_headers_view()
        },
{
    assert(key_values_view(request.headers@).len() == request.headers@.len());
    assert(strings_view(command.add_header@).len() == command.add_header@.len());
    if !command.no_base_headers && !(command.protocol is MqttRequest) {
        let added = key_value_pairs(strings_view(command.add_header@));
        assert((default_headers_view() + added).subrange(0, 5) =~= default_headers_view());
    }
}

} // verus!
