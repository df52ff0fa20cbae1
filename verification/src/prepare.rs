//! Turning an MQTT request into the settings of a broker connection, refusing the ones the
//! MQTT client would not accept.
use vstd::prelude::*;
use vstd::string::*;
use crate::app_state::App;
use crate::mqtt::{MqttRequest, MqttSubscription, MqttVersion, QoS};
use crate::request::{Auth, Protocol, Request};
use crate::text::same_text;

verus! {

#[derive(Debug, Clone, Copy, PartialEq, Eq, Structural)]
pub enum PrepareRequestError {
    /// The pre-request script turned the request into another protocol
    PreRequestScriptChangedProtocol,
    InvalidUrl,
    InvalidMqttUrlScheme,
    UnsupportedMqttAuth,
    MqttClientIdRequired,
    MqttKeepAliveTooShort,
    MqttMaxPacketSizeZero,
}

pub struct PreparedMqttRequest {
    pub version: MqttVersion,
    pub host: String,
    pub port: u16,
    pub use_tls: bool,
    pub client_id: String,
    pub clean_session: bool,
    pub session_expiry_interval: u32,
    pub keep_alive: u16,
    pub max_packet_size: u32,
    pub credentials: Option<(String, String)>,
    pub subscriptions: Vec<(String, QoS)>,
    /// In seconds
    pub connection_timeout: u64,
    pub accept_invalid_certs: bool,
    pub accept_invalid_hostnames: bool,
}

pub struct PreparedMqttRequestView {
    pub version: MqttVersion,
    pub host: Seq<char>,
    pub port: u16,
    pub use_tls: bool,
    pub client_id: Seq<char>,
    pub clean_session: bool,
    pub session_expiry_interval: u32,
    pub keep_alive: u16,
    pub max_packet_size: u32,
    pub credentials: Option<(Seq<char>, Seq<char>)>,
    pub subscriptions: Seq<(Seq<char>, QoS)>,
    pub connection_timeout: u64,
    pub accept_invalid_certs: bool,
    pub accept_invalid_hostnames: bool,
}

pub open spec fn credentials_view(credentials: Option<(String, String)>) -> Option<(Seq<char>, Seq<char>)> {
    match credentials {
        Some((username, password)) => Some((username@, password@)),
        None => None,
    }
}

impl View for PreparedMqttRequest {
    type V = PreparedMqttRequestView;

    open spec fn view(&self) -> PreparedMqttRequestView {
        PreparedMqttRequestView {
            version: self.version,
            host: self.host@,
            port: self.port,
            use_tls: self.use_tls,
            client_id: self.client_id@,
            clean_session: self.clean_session,
            session_expiry_interval: self.session_expiry_interval,
            keep_alive: self.keep_alive,
            max_packet_size: self.max_packet_size,
            credentials: credentials_view(self.credentials),
            subscriptions: self.subscriptions@.map_values(|s: (String, QoS)| (s.0@, s.1)),
            connection_timeout: self.connection_timeout,
            accept_invalid_certs: self.accept_invalid_certs,
            accept_invalid_hostnames: self.accept_invalid_hostnames,
        }
    }
}

/// The parts of a URL that a broker connection needs.
pub struct ParsedUrl {
    /// Lower-cased, without the ':'
    pub scheme: String,
    pub host: Option<String>,
    /// None when the URL gives no port
    pub port: Option<u16>,
}

pub struct ParsedUrlView {
    pub scheme: Seq<char>,
    pub host: Option<Seq<char>>,
    pub port: Option<u16>,
}

impl View for ParsedUrl {
    type V = ParsedUrlView;

    open spec fn view(&self) -> ParsedUrlView {
        ParsedUrlView {
            scheme: self.scheme@,
            host: match self.host {
                Some(host) => Some(host@),
                None => None,
            },
            port: self.port,
        }
    }
}

/// The name of what `reqwest::Url::parse` makes of a text: None when it is not an absolute
/// URL, else the URL's scheme, host and port.
pub uninterp spec fn url_parts(url: Seq<char>) -> Option<ParsedUrlView>;

/// Calls `reqwest::Url::parse` (the `url` crate's parser) and hands back the URL's `scheme`,
/// `host_str` and `port`, or None where the text is not an absolute URL.
#[verifier::external_body]
fn parse_url(url: &str) -> (parsed: Option<ParsedUrl>)
    ensures
        parsed matches Some(p) ==> url_parts(url@) == Some(p@),
        parsed is None ==> url_parts(url@) is None,
{
    match reqwest::Url::parse(url) {
        Ok(url) => Some(ParsedUrl {
            scheme: url.scheme().to_string(),
            host: url.host_str().map(|host| host.to_string()),
            port: url.port(),
        }),
        Err(_) => None,
    }
}

/// Whether the connection uses TLS, and the port used when the URL gives none.
pub open spec fn scheme_transport(scheme: Seq<char>) -> Option<(bool, u16)> {
    if scheme == "mqtt"@ || scheme == "tcp"@ {
        Some((false, 1883))
    } else if scheme == "mqtts"@ || scheme == "ssl"@ {
        Some((true, 8883))
    } else {
        None
    }
}

/// The request timeout, in milliseconds, rounded up to whole seconds, at least one.
pub open spec fn timeout_seconds(timeout_ms: u32) -> u64 {
    let seconds = (timeout_ms + 999) / 1000;
    if seconds >= 1 {
        seconds as u64
    } else {
        1
    }
}

/// The enabled subscriptions, with their topics' variables replaced.
pub open spec fn enabled_subscriptions(app: App, subscriptions: Seq<MqttSubscription>) -> Seq<(Seq<char>, QoS)>
    decreases subscriptions.len(),
{
    if subscriptions.len() == 0 {
        seq![]
    } else {
        let rest = enabled_subscriptions(app, subscriptions.drop_last());
        let subscription = subscriptions.last();
        if subscription.enabled {
            rest.push((app.replaced(subscription.topic@), subscription.qos))
        } else {
            rest
        }
    }
}

/// The credentials sent to the broker: only basic auth has a place in MQTT.
pub open spec fn mqtt_credentials(app: App, auth: Auth) -> Result<Option<(Seq<char>, Seq<char>)>, PrepareRequestError> {
    match auth {
        Auth::NoAuth => Ok(None),
        Auth::BasicAuth(basic) => Ok(Some((app.replaced(basic.username@), app.replaced(basic.password@)))),
        _ => Err(PrepareRequestError::UnsupportedMqttAuth),
    }
}

/// What preparing the request gives once its URL, with variables replaced, has been parsed.
pub open spec fn prepared_of(app: App, request: Request, url: Option<ParsedUrlView>) -> Result<PreparedMqttRequestView, PrepareRequestError> {
    match request.protocol {
        Protocol::MqttRequest(mqtt_request) => {
            match url {
                None => Err(PrepareRequestError::InvalidUrl),
                Some(url) => match scheme_transport(url.scheme) {
                    None => Err(PrepareRequestError::InvalidMqttUrlScheme),
                    Some((use_tls, default_port)) => match url.host {
                        None => Err(PrepareRequestError::InvalidUrl),
                        Some(host) => match mqtt_credentials(app, request.auth) {
                            Err(error) => Err(error),
                            Ok(credentials) => {
                                let client_id = app.replaced(mqtt_request.client_id@);
                                if mqtt_request.version == MqttVersion::V3_1_1 && client_id.len() == 0
                                    && !mqtt_request.clean_session {
                                    Err(PrepareRequestError::MqttClientIdRequired)
                                } else if mqtt_request.version == MqttVersion::V5 && mqtt_request.keep_alive < 5 {
                                    Err(PrepareRequestError::MqttKeepAliveTooShort)
                                } else if mqtt_request.max_packet_size == 0 {
                                    Err(PrepareRequestError::MqttMaxPacketSizeZero)
                                } else {
                                    Ok(PreparedMqttRequestView {
                                        version: mqtt_request.version,
                                        host,
                                        port: match url.port {
                                            Some(port) => port,
                                            None => default_port,
                                        },
                                        use_tls,
                                        client_id,
                                        clean_session: mqtt_request.clean_session,
                                        session_expiry_interval: mqtt_request.session_expiry_interval,
                                        keep_alive: mqtt_request.keep_alive,
                                        max_packet_size: mqtt_request.max_packet_size,
                                        credentials,
                                        subscriptions: enabled_subscriptions(app, mqtt_request.subscriptions@),
                                        connection_timeout: timeout_seconds(request.settings.timeout),
                                        accept_invalid_certs: request.settings.accept_invalid_certs,
                                        accept_invalid_hostnames: request.settings.accept_invalid_hostnames,
                                    })
                                }
                            },
                        },
                    },
                },
            }
        },
        _ => Err(PrepareRequestError::PreRequestScriptChangedProtocol),
    }
}

pub open spec fn prepared_matches(result: Result<PreparedMqttRequest, PrepareRequestError>, expected: Result<PreparedMqttRequestView, PrepareRequestError>) -> bool {
    match result {
        Ok(prepared) => expected == Ok::<PreparedMqttRequestView, PrepareRequestError>(prepared@),
        Err(error) => expected == Err::<PreparedMqttRequestView, PrepareRequestError>(error),
    }
}

fn scheme_transport_of(scheme: &String) -> (transport: Option<(bool, u16)>)
    ensures
        transport == scheme_transport(scheme@),
{
    if same_text(scheme.as_str(), "mqtt") || same_text(scheme.as_str(), "tcp") {
        Some((false, 1883))
    } else if same_text(scheme.as_str(), "mqtts") || same_text(scheme.as_str(), "ssl") {
        Some((true, 8883))
    } else {
        None
    }
}

fn timeout_in_seconds(timeout_ms: u32) -> (seconds: u64)
    ensures
        seconds == timeout_seconds(timeout_ms),
{
    let seconds = (timeout_ms as u64 + 999) / 1000;
    if seconds >= 1 {
        seconds
    } else {
        1
    }
}

impl App {
    fn mqtt_credentials_of(&self, auth: &Auth) -> (credentials: Result<Option<(String, String)>, PrepareRequestError>)
        ensures
            match credentials {
                Ok(c) => mqtt_credentials(*self, *auth) == Ok::<
                    Option<(Seq<char>, Seq<char>)>,
                    PrepareRequestError,
                >(credentials_view(c)),
                Err(e) => mqtt_credentials(*self, *auth) == Err::<
                    Option<(Seq<char>, Seq<char>)>,
                    PrepareRequestError,
                >(e),
            },
    {
        match auth {
            Auth::NoAuth => Ok(None),
            Auth::BasicAuth(basic) => Ok(
                Some(
                    (
                        self.replace_env_keys_by_value(&basic.username),
                        self.replace_env_keys_by_value(&basic.password),
                    ),
                ),
            ),
            _ => Err(PrepareRequestError::UnsupportedMqttAuth),
        }
    }

    fn enabled_subscriptions_of(&self, subscriptions: &Vec<MqttSubscription>) -> (enabled: Vec<(String, QoS)>)
        ensures
            enabled@.map_values(|s: (String, QoS)| (s.0@, s.1)) == enabled_subscriptions(
                *self,
                subscriptions@,
            ),
    {
        let mut enabled: Vec<(String, QoS)> = Vec::new();
        let mut i: usize = 0;
        while i < subscriptions.len()
            invariant
                i <= subscriptions@.len(),
                enabled@.map_values(|s: (String, QoS)| (s.0@, s.1)) == enabled_subscriptions(
                    *self,
                    subscriptions@.subrange(0, i as int),
                ),
            decreases subscriptions@.len() - i,
        {
            let ghost before = enabled@;
            let subscription = &subscriptions[i];
            proof {
                let next = subscriptions@.subrange(0, i + 1);
                assert(next.drop_last() =~= subscriptions@.subrange(0, i as int));
                assert(next.last() == subscriptions@[i as int]);
            }
            if subscription.enabled {
                enabled.push((self.replace_env_keys_by_value(&subscription.topic), subscription.qos));
                assert(enabled@.map_values(|s: (String, QoS)| (s.0@, s.1)) =~= before.map_values(
                    |s: (String, QoS)| (s.0@, s.1),
                ).push((self.replaced(subscription.topic@), subscription.qos)));
            }
            i = i + 1;
        }
        assert(subscriptions@.subrange(0, subscriptions@.len() as int) =~= subscriptions@);
        enabled
    }

    /// Prepares a request whose URL, with the environment's variables replaced, parsed as
    /// `url`: the decisions that follow the URL's parsing.
    pub fn prepare_mqtt_request_from_url(&self, request: &Request, url: Option<ParsedUrl>) -> (prepared: Result<PreparedMqttRequest, PrepareRequestError>)
        ensures
            prepared_matches(
                prepared,
                prepared_of(
                    *self,
                    *request,
                    match url {
                        Some(u) => Some(u@),
                        None => None,
                    },
                ),
            ),
    {
        // The script could have changed the protocol
        let mqtt_request: &MqttRequest = match &request.protocol {
            Protocol::MqttRequest(mqtt_request) => mqtt_request,
            _ => return Err(PrepareRequestError::PreRequestScriptChangedProtocol),
        };

        /* URL */

        let url = match url {
            Some(url) => url,
            None => return Err(PrepareRequestError::InvalidUrl),
        };

        let (use_tls, default_port) = match scheme_transport_of(&url.scheme) {
            Some(transport) => transport,
            None => return Err(PrepareRequestError::InvalidMqttUrlScheme),
        };

        let host = match url.host {
            Some(host) => host,
            None => return Err(PrepareRequestError::InvalidUrl),
        };

        /* AUTH */

        let credentials = match self.mqtt_credentials_of(&request.auth) {
            Ok(credentials) => credentials,
            Err(error) => return Err(error),
        };

        /* CLIENT ID */

        let client_id = self.replace_env_keys_by_value(&mqtt_request.client_id);

        // Checked here because rumqttc panics on it, MQTT 5 allows it and lets the broker assign an ID
        if mqtt_request.version == MqttVersion::V3_1_1 && client_id.as_str().is_empty()
            && !mqtt_request.clean_session {
            return Err(PrepareRequestError::MqttClientIdRequired);
        }

        /* KEEP ALIVE */

        // Same, rumqttc panics on MQTT 5 keep alives under 5 seconds
        if mqtt_request.version == MqttVersion::V5 && mqtt_request.keep_alive < 5 {
            return Err(PrepareRequestError::MqttKeepAliveTooShort);
        }

        /* MAX PACKET SIZE */

        // A zero limit is a protocol error in MQTT 5 and would refuse every packet in 3.1.1
        if mqtt_request.max_packet_size == 0 {
            return Err(PrepareRequestError::MqttMaxPacketSizeZero);
        }

        /* SUBSCRIPTIONS */

        let subscriptions = self.enabled_subscriptions_of(&mqtt_request.subscriptions);

        let port = match url.port {
            Some(port) => port,
            None => default_port,
        };

        Ok(
            PreparedMqttRequest {
                version: mqtt_request.version,
                host,
                port,
                use_tls,
                client_id,
                clean_session: mqtt_request.clean_session,
                session_expiry_interval: mqtt_request.session_expiry_interval,
                keep_alive: mqtt_request.keep_alive,
                max_packet_size: mqtt_request.max_packet_size,
                credentials,
                subscriptions,
                connection_timeout: timeout_in_seconds(request.settings.timeout),
                accept_invalid_certs: request.settings.accept_invalid_certs,
                accept_invalid_hostnames: request.settings.accept_invalid_hostnames,
            },
        )
    }

    /// Prepares the connection to the broker of a request. No script is run here: the request is
    /// prepared as it is given, so a caller that runs a pre-request script passes the request
    /// the script left, and one that is no longer an MQTT request is refused.
    pub fn prepare_mqtt_request(&self, request: &Request) -> (prepared: Result<PreparedMqttRequest, PrepareRequestError>)
        ensures
            prepared_matches(prepared, prepared_of(*self, *request, url_parts(self.replaced(request.url@)))),
    {
        let url = self.replace_env_keys_by_value(&request.url);
        let parsed = parse_url(url.as_str());
        self.prepare_mqtt_request_from_url(request, parsed)
    }
}

/// The prepared subscriptions are the request's subscriptions kept where enabled, in their
/// order, each as its topic with variables replaced and its QoS: there are as many as there
/// are enabled subscriptions, and every enabled one is among them.
pub proof fn lemma_enabled_subscriptions_are_all_kept(app: App, subscriptions: Seq<MqttSubscription>)
    ensures
        enabled_subscriptions(app, subscriptions) == subscriptions.filter(
            |s: MqttSubscription| s.enabled,
        ).map_values(|s: MqttSubscription| (app.replaced(s.topic@), s.qos)),
        enabled_subscriptions(app, subscriptions).len() == subscriptions.filter(
            |s: MqttSubscription| s.enabled,
        ).len(),
        forall|i: int|
            0 <= i < subscriptions.len() && #[trigger] subscriptions[i].enabled ==> enabled_subscriptions(
                app,
                subscriptions,
            ).contains((app.replaced(subscriptions[i].topic@), subscriptions[i].qos)),
    decreases subscriptions.len(),
{
    let pred = |s: MqttSubscription| s.enabled;
    let f = |s: MqttSubscription| (app.replaced(s.topic@), s.qos);
    reveal(Seq::filter);
    if subscriptions.len() > 0 {
        lemma_enabled_subscriptions_are_all_kept(app, subscriptions.drop_last());
        let rest = subscriptions.drop_last().filter(pred);
        if subscriptions.last().enabled {
            assert(rest.push(subscriptions.last()).map_values(f) =~= rest.map_values(f).push(
                f(subscriptions.last()),
            ));
        }
    } else {
        assert(subscriptions.filter(pred).map_values(f) =~= Seq::<(Seq<char>, QoS)>::empty());
    }
    let kept = subscriptions.filter(pred);
    assert forall|i: int|
        0 <= i < subscriptions.len() && #[trigger] subscriptions[i].enabled implies enabled_subscriptions(
            app,
            subscriptions,
        ).contains((app.replaced(subscriptions[i].topic@), subscriptions[i].qos)) by {
        #[allow(deprecated)]
        subscriptions.filter_lemma(pred);
        assert(kept.contains(subscriptions[i]));
        let j = choose|j: int| 0 <= j < kept.len() && kept[j] == subscriptions[i];
        assert(kept.map_values(f)[j] == f(subscriptions[i]));
    }
}

} // verus!
