use atac::app_state::{App, Environment};
use atac::mqtt::{MqttRequest, MqttSubscription, MqttVersion, QoS};
use atac::prepare::{ParsedUrl, PrepareRequestError, PreparedMqttRequest};
use atac::request::{Auth, BasicAuth, BearerToken, HttpRequest, Protocol, Request};

fn request(url: &str, edit: impl FnOnce(&mut MqttRequest)) -> Request {
    let mut mqtt_request = MqttRequest::default();
    edit(&mut mqtt_request);

    Request {
        url: url.to_string(),
        protocol: Protocol::MqttRequest(mqtt_request),
        ..Default::default()
    }
}

fn prepare(request: &mut Request) -> Result<PreparedMqttRequest, PrepareRequestError> {
    App::new().prepare_mqtt_request(request)
}

#[test]
fn url_schemes_and_default_ports() {
    for (url, use_tls, port) in [
        ("mqtt://broker", false, 1883),
        ("tcp://broker", false, 1883),
        ("mqtts://broker", true, 8883),
        ("ssl://broker", true, 8883),
        ("mqtt://broker:1884", false, 1884),
        ("mqtts://broker:8886", true, 8886),
    ] {
        let prepared = prepare(&mut request(url, |_| {})).unwrap();

        assert_eq!(prepared.host, "broker", "{url}");
        assert_eq!(prepared.use_tls, use_tls, "{url}");
        assert_eq!(prepared.port, port, "{url}");
    }
}

#[test]
fn invalid_urls_are_refused() {
    for url in ["http://broker", "ws://broker", "wss://broker"] {
        assert!(matches!(prepare(&mut request(url, |_| {})), Err(PrepareRequestError::InvalidMqttUrlScheme)), "{url}");
    }

    for url in ["", "broker", "mqtt://"] {
        assert!(matches!(prepare(&mut request(url, |_| {})), Err(PrepareRequestError::InvalidUrl)), "{url:?}");
    }
}

#[test]
fn only_basic_auth_is_supported() {
    let mut no_auth = request("mqtt://broker", |_| {});
    assert!(prepare(&mut no_auth).unwrap().credentials.is_none());

    let mut basic = request("mqtt://broker", |_| {});
    basic.auth = Auth::BasicAuth(BasicAuth { username: String::from("user"), password: String::from("pass") });
    assert_eq!(prepare(&mut basic).unwrap().credentials, Some((String::from("user"), String::from("pass"))));

    let mut bearer = request("mqtt://broker", |_| {});
    bearer.auth = Auth::BearerToken(BearerToken { token: String::from("token") });
    assert!(matches!(prepare(&mut bearer), Err(PrepareRequestError::UnsupportedMqttAuth)));
}

#[test]
fn empty_client_id_needs_clean_session_in_3_1_1_only() {
    let persistent = |version| request("mqtt://broker", |mqtt_request| {
        mqtt_request.version = version;
        mqtt_request.clean_session = false;
    });

    assert!(matches!(prepare(&mut persistent(MqttVersion::V3_1_1)), Err(PrepareRequestError::MqttClientIdRequired)));
    assert!(prepare(&mut persistent(MqttVersion::V5)).is_ok());
}

#[test]
fn mqtt_5_keep_alive_must_be_at_least_5_seconds() {
    let keep_alive = |version, keep_alive| request("mqtt://broker", |mqtt_request| {
        mqtt_request.version = version;
        mqtt_request.keep_alive = keep_alive;
    });

    assert!(matches!(prepare(&mut keep_alive(MqttVersion::V5, 4)), Err(PrepareRequestError::MqttKeepAliveTooShort)));
    assert!(prepare(&mut keep_alive(MqttVersion::V5, 5)).is_ok());
    assert!(prepare(&mut keep_alive(MqttVersion::V3_1_1, 0)).is_ok());
}

#[test]
fn zero_max_packet_size_is_refused() {
    let mut zero = request("mqtt://broker", |mqtt_request| mqtt_request.max_packet_size = 0);
    assert!(matches!(prepare(&mut zero), Err(PrepareRequestError::MqttMaxPacketSizeZero)));
}

#[test]
fn only_enabled_subscriptions_are_kept() {
    let mut subscriptions = request("mqtt://broker", |mqtt_request| {
        mqtt_request.subscriptions = vec![
            MqttSubscription { enabled: true, topic: String::from("a/#"), qos: QoS::AtLeastOnce },
            MqttSubscription { enabled: false, topic: String::from("b/#"), qos: QoS::AtMostOnce },
        ];
    });

    assert_eq!(prepare(&mut subscriptions).unwrap().subscriptions, vec![(String::from("a/#"), QoS::AtLeastOnce)]);
}

#[test]
fn timeout_is_rounded_up_to_whole_seconds() {
    for (timeout_ms, seconds) in [(0, 1), (1, 1), (1000, 1), (1001, 2), (30000, 30)] {
        let mut timeout = request("mqtt://broker", |_| {});
        timeout.settings.timeout = timeout_ms;

        assert_eq!(prepare(&mut timeout).unwrap().connection_timeout, seconds, "{timeout_ms} ms");
    }
}

#[test]
fn tls_settings_are_passed_on() {
    let mut settings = request("mqtts://broker", |_| {});
    settings.settings.accept_invalid_certs = true;

    let prepared = prepare(&mut settings).unwrap();
    assert!(prepared.accept_invalid_certs);
    assert!(!prepared.accept_invalid_hostnames);
}

#[test]
fn environment_variables_are_replaced() {
    let mut app = App::new();
    app.selected_environment = Some(Environment {
        name: String::from("env"),
        values: vec![
            (String::from("HOST"), String::from("broker")),
            (String::from("ID"), String::from("client")),
            (String::from("TOPIC"), String::from("sensors")),
            (String::from("BROKER_USER"), String::from("user")),
        ],
    });

    let mut with_variables = request("mqtts://{{HOST}}:8886", |mqtt_request| {
        mqtt_request.client_id = String::from("{{ID}}");
        mqtt_request.subscriptions = vec![MqttSubscription { enabled: true, topic: String::from("{{TOPIC}}/#"), qos: QoS::AtMostOnce }];
    });
    with_variables.auth = Auth::BasicAuth(BasicAuth { username: String::from("{{BROKER_USER}}"), password: String::new() });

    let prepared = app.prepare_mqtt_request(&mut with_variables).unwrap();

    assert_eq!(prepared.host, "broker");
    assert_eq!(prepared.client_id, "client");
    assert_eq!(prepared.subscriptions[0].0, "sensors/#");
    assert_eq!(prepared.credentials, Some((String::from("user"), String::new())));
}

/// A pre-request script turned the request into an HTTP one: its result is what is prepared.
#[test]
fn pre_request_script_changing_the_protocol_is_an_error() {
    let mut script = request("mqtt://broker", |_| {});
    script.protocol = Protocol::HttpRequest(HttpRequest::default());

    assert!(matches!(prepare(&mut script), Err(PrepareRequestError::PreRequestScriptChangedProtocol)));
}

#[test]
fn unknown_variables_and_empty_environments_leave_the_text() {
    let mut app = App::new();
    assert_eq!(app.replace_env_keys_by_value(&String::from("{{A}}/x")), "{{A}}/x");

    app.selected_environment = Some(Environment { name: String::from("e"), values: vec![(String::from("A"), String::from("1"))] });
    assert_eq!(app.replace_env_keys_by_value(&String::from("{{A}}/{{B}}/{{A}}")), "1/{{B}}/1");
    assert_eq!(app.replace_env_keys_by_value(&String::from("{A}")), "{A}");
}

#[test]
fn checks_after_the_url_is_parsed() {
    let app = App::new();
    let mqtt = request("", |_| {});

    let parsed = |scheme: &str, host: Option<&str>, port| ParsedUrl { scheme: scheme.to_string(), host: host.map(String::from), port };

    assert!(matches!(app.prepare_mqtt_request_from_url(&mqtt, None), Err(PrepareRequestError::InvalidUrl)));
    assert!(matches!(app.prepare_mqtt_request_from_url(&mqtt, Some(parsed("mqtt", None, None))), Err(PrepareRequestError::InvalidUrl)));
    assert!(matches!(app.prepare_mqtt_request_from_url(&mqtt, Some(parsed("http", Some("h"), None))), Err(PrepareRequestError::InvalidMqttUrlScheme)));

    let prepared = app.prepare_mqtt_request_from_url(&mqtt, Some(parsed("ssl", Some("h"), Some(1)))).unwrap();
    assert_eq!((prepared.host.as_str(), prepared.port, prepared.use_tls), ("h", 1, true));
    assert_eq!(prepared.keep_alive, 60);
    assert_eq!(prepared.max_packet_size, 1024 * 1024);
    assert_eq!(prepared.session_expiry_interval, 3600);
    assert_eq!(prepared.connection_timeout, 30);
}
