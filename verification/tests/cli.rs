use atac::cli::{create_request_from_new_request_command, parse_keep_alive, parse_max_packet_size, parse_mqtt_version, parse_qos, NewRequestCommand};
use atac::mqtt::{MqttVersion, QoS};
use atac::request::{parse_protocol, Auth, ContentType, Method, Protocol, Request};

/// Reads the options these tests use, the way the command line reads them.
fn command(args: &[&str]) -> Result<NewRequestCommand, String> {
    let mut command = NewRequestCommand::default();
    let mut i = 0;
    let value = |i: usize| args.get(i).copied().ok_or_else(|| String::from("missing value"));
    while i < args.len() {
        match args[i] {
            "-p" => { command.protocol = parse_protocol(value(i + 1)?).ok_or("invalid protocol")?; i += 2; }
            "-u" => { command.url = value(i + 1)?.to_string(); i += 2; }
            "-m" => {
                command.method = match value(i + 1)? {
                    "GET" => Method::GET,
                    "POST" => Method::POST,
                    _ => return Err(String::from("invalid method")),
                };
                i += 2;
            }
            "--mqtt-version" => { command.mqtt.mqtt_version = Some(parse_mqtt_version(value(i + 1)?).ok_or("invalid version")?); i += 2; }
            "--client-id" => { command.mqtt.client_id = Some(value(i + 1)?.to_string()); i += 2; }
            "--no-clean-session" => { command.mqtt.no_clean_session = true; i += 1; }
            "--session-expiry" => { command.mqtt.session_expiry = Some(value(i + 1)?.parse().map_err(|_| "invalid session expiry")?); i += 2; }
            "--keep-alive" => { command.mqtt.keep_alive = Some(parse_keep_alive(value(i + 1)?).ok_or("invalid keep alive")?); i += 2; }
            "--max-packet-size" => { command.mqtt.max_packet_size = Some(parse_max_packet_size(value(i + 1)?).ok_or("invalid max packet size")?); i += 2; }
            "--add-subscription" => {
                command.mqtt.add_subscription.push(value(i + 1)?.to_string());
                command.mqtt.add_subscription.push(value(i + 2)?.to_string());
                i += 3;
            }
            "--publish-topic" => { command.mqtt.publish_topic = Some(value(i + 1)?.to_string()); i += 2; }
            "--publish-qos" => { command.mqtt.publish_qos = Some(parse_qos(value(i + 1)?).ok_or("invalid QoS")?); i += 2; }
            "--publish-retain" => { command.mqtt.publish_retain = true; i += 1; }
            "--body-raw" => { command.body.body_raw = Some(value(i + 1)?.to_string()); i += 2; }
            "--add-header" => {
                command.add_header.push(value(i + 1)?.to_string());
                command.add_header.push(value(i + 2)?.to_string());
                i += 3;
            }
            "--add-param" => {
                command.add_param.push(value(i + 1)?.to_string());
                command.add_param.push(value(i + 2)?.to_string());
                i += 3;
            }
            "--auth-basic" => {
                command.auth.auth_basic.push(value(i + 1)?.to_string());
                command.auth.auth_basic.push(value(i + 2)?.to_string());
                i += 3;
            }
            "--auth-jwt-token" => {
                for k in 1..=4 {
                    command.auth.auth_jwt_token.push(value(i + k)?.to_string());
                }
                i += 5;
            }
            other => return Err(format!("unknown option {other}")),
        }
    }
    Ok(command)
}

fn new_request(args: &[&str]) -> Result<Request, String> {
    create_request_from_new_request_command(String::from("test"), command(args)?)
}

#[test]
fn mqtt_options_are_applied() {
    let request = new_request(&[
        "-p", "MQTT", "-u", "mqtts://broker:8886",
        "--mqtt-version", "5", "--client-id", "atac", "--no-clean-session", "--session-expiry", "120",
        "--keep-alive", "30", "--max-packet-size", "4096",
        "--add-subscription", "a/#", "1", "--add-subscription", "b/+", "2",
        "--publish-topic", "a/b", "--publish-qos", "2", "--publish-retain",
    ]).unwrap();

    let Protocol::MqttRequest(mqtt_request) = &request.protocol else { panic!("not an MQTT request") };

    assert_eq!(request.url, "mqtts://broker:8886");
    assert_eq!(mqtt_request.version, MqttVersion::V5);
    assert_eq!(mqtt_request.client_id, "atac");
    assert!(!mqtt_request.clean_session);
    assert_eq!(mqtt_request.session_expiry_interval, 120);
    assert_eq!(mqtt_request.keep_alive, 30);
    assert_eq!(mqtt_request.max_packet_size, 4096);
    assert_eq!(mqtt_request.subscriptions.len(), 2);
    assert_eq!((mqtt_request.subscriptions[1].topic.as_str(), mqtt_request.subscriptions[1].qos), ("b/+", QoS::ExactlyOnce));
    assert_eq!((mqtt_request.publish.topic.as_str(), mqtt_request.publish.qos, mqtt_request.publish.retain), ("a/b", QoS::ExactlyOnce, true));
}

#[test]
fn mqtt_requests_have_no_http_headers() {
    assert!(new_request(&["-p", "MQTT"]).unwrap().headers.is_empty());
    assert!(!new_request(&["-p", "HTTP"]).unwrap().headers.is_empty());
}

#[test]
fn mqtt_options_need_an_mqtt_request() {
    for protocol in ["HTTP", "websocket"] {
        assert!(new_request(&["-p", protocol, "--client-id", "atac"]).is_err(), "{protocol}");
        assert!(new_request(&["-p", protocol, "--add-subscription", "a", "0"]).is_err(), "{protocol}");
    }
}

#[test]
fn http_options_are_refused_on_mqtt_requests() {
    assert!(new_request(&["-p", "MQTT", "-m", "POST"]).is_err());
    assert!(new_request(&["-p", "MQTT", "--body-raw", "x"]).is_err());
    assert!(new_request(&["-p", "MQTT", "--add-header", "a", "b"]).is_err());
}

#[test]
fn invalid_values_are_refused() {
    assert!(new_request(&["-p", "MQTT", "--add-subscription", "a", "3"]).is_err());
    assert!(new_request(&["-p", "MQTT", "--publish-qos", "3"]).is_err());
    assert!(new_request(&["-p", "MQTT", "--mqtt-version", "4"]).is_err());
    assert!(new_request(&["-p", "MQTT", "--max-packet-size", "0"]).is_err());
    assert!(new_request(&["-p", "MQTT", "--keep-alive", "65536"]).is_err());
}

#[test]
fn refusal_messages() {
    assert_eq!(new_request(&["-p", "MQTT", "--add-subscription", "a", "0", "--add-subscription", "b", "x"]).unwrap_err(), "Invalid QoS \"x\", expected 0, 1 or 2");
    assert_eq!(new_request(&["-p", "HTTP", "--publish-retain"]).unwrap_err(), "MQTT options can only be used with an MQTT request");
    assert_eq!(new_request(&["-p", "websocket", "-m", "POST"]).unwrap_err(), "Setting a method with a websocket request is incompatible");
    assert_eq!(new_request(&["-p", "websocket", "--body-raw", "x"]).unwrap_err(), "Setting a body with a websocket request body is incompatible");
    assert_eq!(new_request(&["-p", "MQTT", "-m", "POST"]).unwrap_err(), "Setting a method with an MQTT request is incompatible");
    assert_eq!(new_request(&["-p", "MQTT", "--body-raw", "x"]).unwrap_err(), "Setting a body with an MQTT request is incompatible");
    assert_eq!(new_request(&["-p", "MQTT", "--add-header", "a", "b"]).unwrap_err(), "Setting a header with an MQTT request is incompatible");
    assert_eq!(new_request(&["-p", "HTTP", "--auth-jwt-token", "XX1", "text", "s", "p"]).unwrap_err(), "invalid variant: XX1");
    assert_eq!(new_request(&["-p", "HTTP", "--auth-jwt-token", "hs256", "hex", "s", "p"]).unwrap_err(), "invalid variant: hex");
}

#[test]
fn http_requests_keep_method_body_params_and_auth() {
    let request = new_request(&["-p", "HTTP", "-m", "POST", "--body-raw", "x", "--add-param", "k", "v", "--auth-basic", "u", "p", "--add-header", "h", "1"]).unwrap();
    let Protocol::HttpRequest(http) = &request.protocol else { panic!("not an HTTP request") };
    assert_eq!(http.method, Method::POST);
    assert!(matches!(&http.body, ContentType::Raw(raw) if raw == "x"));
    assert_eq!(request.params.len(), 1);
    assert_eq!(request.params[0].data, (String::from("k"), String::from("v")));
    assert!(matches!(&request.auth, Auth::BasicAuth(b) if b.username == "u" && b.password == "p"));
    assert_eq!(request.headers.len(), 6);
    assert_eq!(request.headers[5].data, (String::from("h"), String::from("1")));
    assert_eq!(request.settings.timeout, 30000);
    assert!(request.settings.use_config_proxy);
}

#[test]
fn jwt_names_ignore_case() {
    let request = new_request(&["-p", "HTTP", "--auth-jwt-token", "HS256", "Base64", "s", "p"]).unwrap();
    assert!(matches!(&request.auth, Auth::JwtToken(_)));
}

#[test]
fn command_line_values() {
    assert_eq!(parse_qos("1"), Some(QoS::AtLeastOnce));
    assert_eq!(parse_mqtt_version("3.1.1"), Some(MqttVersion::V3_1_1));
    assert_eq!(parse_keep_alive("65535"), Some(65535));
    assert_eq!(parse_keep_alive("+7"), Some(7));
    assert_eq!(parse_keep_alive(""), None);
    assert_eq!(parse_keep_alive("1a"), None);
    assert_eq!(parse_max_packet_size("4294967295"), Some(4294967295));
    assert_eq!(parse_max_packet_size("4294967296"), None);
}

#[test]
fn zero_max_packet_size_is_refused_without_the_command_line() {
    let mut command = NewRequestCommand::default();
    command.protocol = parse_protocol("MQTT").unwrap();
    command.mqtt.max_packet_size = Some(0);

    assert_eq!(
        create_request_from_new_request_command(String::from("test"), command).unwrap_err(),
        "Invalid max packet size \"0\", expected a positive number of bytes"
    );
}

#[test]
fn form_bodies_take_the_form_values() {
    let mut command = NewRequestCommand::default();
    command.body.add_body_form = vec![String::from("k"), String::from("v")];

    let request = create_request_from_new_request_command(String::from("test"), command).unwrap();
    let Protocol::HttpRequest(http) = &request.protocol else { panic!("not an HTTP request") };
    let ContentType::Form(form) = &http.body else { panic!("not a form body") };
    assert_eq!(form.len(), 1);
    assert!(form[0].enabled);
    assert_eq!(form[0].data, (String::from("k"), String::from("v")));
}
