use base64ct::Encoding;
use ed25519_dalek::Verifier;
use my_home::configuration::{
    Configuration, DeviceInfo, DeviceInfoFile, DipKey, MetaFile, OnboardingConfig, OnboardingConfigFile, StCli,
};
use my_home::smartthings::jwt::{generate_jwt, keypair_from_config, Body, Header, JwtError, Keypair};
use my_home::smartthings::session::{Action, Cmd, ConnectionState, CreateError, LifeCycleEvent, SmartThings};
use my_home::smartthings::{
    commands_topic, device_events_topic, is_known_topic_name, notifications_topic, route_message, DeviceEvent,
    Incoming, Topic,
};

const PRIVATE: &str = "nWGxne/9WmC6hEr0kuwsxERJxWl7MmkZcDusAxyuf2A=";
const PUBLIC: &str = "11qYAYKxCrfVS/7TyWQHOg7hcvPapiMlrwIaaPcHURo=";

fn configuration(identity_type: &str, private_key: &str, public_key: &str) -> Configuration {
    Configuration::from_files(
        DeviceInfoFile {
            device_info: DeviceInfo {
                firmware_version: "1".to_string(),
                private_key: private_key.to_string(),
                public_key: public_key.to_string(),
                serial_number: "serial".to_string(),
            },
            stcli: StCli { device_id: "dev-1".to_string() },
        },
        MetaFile { location_id: "home".to_string() },
        OnboardingConfigFile {
            onboarding_config: OnboardingConfig {
                device_onboarding_id: "onboarding".to_string(),
                mn_id: "mn".to_string(),
                setup_id: "001".to_string(),
                vid: "vid".to_string(),
                device_type_id: "type".to_string(),
                identity_type: identity_type.to_string(),
                device_integration_profile_key: DipKey { id: "dip".to_string(), major_version: 0, minor_version: 1 },
            },
        },
    )
}

#[test]
fn configuration_is_assembled_from_its_files() {
    let cfg = configuration("ED25519", PRIVATE, PUBLIC);
    assert_eq!(cfg.stcli.device_id, "dev-1");
    assert_eq!(cfg.meta.location_id, "home");
    assert_eq!(cfg.onboarding.device_integration_profile_key.minor_version, 1);
    assert_eq!(cfg.device_info.serial_number, "serial");
}

#[test]
fn topics_of_a_device() {
    assert_eq!(device_events_topic("dev-1"), "/v1/deviceEvents/dev-1");
    assert_eq!(commands_topic("dev-1"), "/v1/commands/dev-1");
    assert_eq!(notifications_topic("dev-1"), "/v1/notifications/dev-1");
    assert_eq!(Topic::from_topic_name("/v1/commands/dev-1"), Topic::Commands);
    assert_eq!(Topic::from_topic_name("/v1/notifications/dev-1"), Topic::Notifications);
    assert!(is_known_topic_name("/v1/commands/x"));
    assert!(!is_known_topic_name("/v2/other"));
}

#[test]
fn messages_are_routed_and_trimmed() {
    match route_message("/v1/commands/dev-1", &[0, 0, b'{', b'}', 0]) {
        Incoming::Commands(p) => assert_eq!(p, b"{}".to_vec()),
        r => panic!("unexpected {:?}", r),
    }
    match route_message("/v1/notifications/dev-1", &[0, 0]) {
        Incoming::Notification(p) => assert!(p.is_empty()),
        r => panic!("unexpected {:?}", r),
    }
}

#[test]
fn simple_event_holds_a_json_string() {
    let e = DeviceEvent::simple_str("main", "switch", "switch", "on");
    assert_eq!(e.component, "main");
    assert_eq!(e.value, serde_json::Value::String("on".to_string()));
    assert!(e.unit.is_none());
}

#[test]
fn only_ed25519_identities_are_supported() {
    match SmartThings::new(configuration("RSA", PRIVATE, PUBLIC)) {
        Err(CreateError::UnsupportedIdentityType(t)) => assert_eq!(t, "RSA"),
        _ => panic!("RSA accepted"),
    }
    assert!(SmartThings::new(configuration("ED25519", PRIVATE, PUBLIC)).is_ok());
}

fn event(value: &str) -> DeviceEvent {
    DeviceEvent::simple_str("main", "switch", "switch", value)
}

#[test]
fn events_wait_for_the_connection_then_go_in_order() {
    let mut st = SmartThings::new(configuration("ED25519", PRIVATE, PUBLIC)).unwrap();
    assert!(matches!(st.recv_cmd(Cmd::Publish(event("on"))), Action::Idle));
    assert_eq!(st.pending_events().len(), 1);
    assert!(matches!(st.recv_cmd(Cmd::Connect), Action::Connect));
    assert_eq!(st.connection(), ConnectionState::WaitingConnection);
    assert!(matches!(st.recv_cmd(Cmd::Publish(event("off"))), Action::Idle));
    assert!(matches!(st.recv_lifecycle(LifeCycleEvent::ConnectResult(Ok(()))), Action::Idle));
    assert!(matches!(st.recv_lifecycle(LifeCycleEvent::SuscribeResult(Ok(()))), Action::Subscribe));
    match st.recv_cmd(Cmd::Publish(event("on"))) {
        Action::Publish { topic, events, qos } => {
            assert_eq!(topic, "/v1/deviceEvents/dev-1");
            assert_eq!(qos, my_home::mqtt::QualityOfService::Level1);
            let values: Vec<_> = events.device_events.iter().map(|e| e.value.clone()).collect();
            assert_eq!(values, vec![serde_json::Value::String("on".to_string()), serde_json::Value::String("off".to_string()), serde_json::Value::String("on".to_string())]);
        }
        _ => panic!("nothing published"),
    }
    assert!(st.pending_events().is_empty());
}

#[test]
fn a_failed_connection_drops_the_client() {
    let mut st = SmartThings::new(configuration("ED25519", PRIVATE, PUBLIC)).unwrap();
    st.recv_cmd(Cmd::Connect);
    st.recv_lifecycle(LifeCycleEvent::ConnectResult(Err(my_home::mqtt::ClientError::NotConnected)));
    assert_eq!(st.connection(), ConnectionState::Disconnected);
    assert!(matches!(st.recv_lifecycle(LifeCycleEvent::SuscribeResult(Ok(()))), Action::Idle));
}

#[test]
fn keypair_errors() {
    assert!(matches!(keypair_from_config(&configuration("ED25519", "***", PUBLIC)), Err(JwtError::DecodeBase64(_))));
    match keypair_from_config(&configuration("ED25519", "AAAA", PUBLIC)) {
        Err(JwtError::InvalidKeyLength(name, len)) => {
            assert_eq!(name, "private");
            assert_eq!(len, 3);
        }
        r => panic!("unexpected {:?}", r.err()),
    }
    match keypair_from_config(&configuration("ED25519", PRIVATE, "AAAA")) {
        Err(JwtError::InvalidKeyLength(name, len)) => {
            assert_eq!(name, "public");
            assert_eq!(len, 3);
        }
        r => panic!("unexpected {:?}", r.err()),
    }
    // a public key that is not the one of the private key
    assert!(matches!(keypair_from_config(&configuration("ED25519", PRIVATE, PRIVATE)), Err(JwtError::Signature(_))));
}

#[test]
fn token_is_signed_by_the_device_key() {
    let keypair: Keypair = keypair_from_config(&configuration("ED25519", PRIVATE, PUBLIC)).unwrap();
    let token = generate_jwt(b"{\"alg\":\"EdDSA\"}", b"{}", &keypair).unwrap();
    let parts: Vec<&str> = token.split('.').collect();
    assert_eq!(parts.len(), 3);
    assert_eq!(parts[0], "eyJhbGciOiJFZERTQSJ9");
    assert_eq!(parts[1], "e30=");
    let signature = base64ct::Base64::decode_vec(parts[2]).unwrap();
    let public = base64ct::Base64::decode_vec(PUBLIC).unwrap();
    let key = ed25519_dalek::VerifyingKey::from_bytes(&public.try_into().unwrap()).unwrap();
    let signature = ed25519_dalek::Signature::from_slice(&signature).unwrap();
    assert!(key.verify(b"eyJhbGciOiJFZERTQSJ9.e30=", &signature).is_ok());
}

#[test]
fn header_and_body() {
    let h = Header::with_serial("serial");
    assert_eq!(h.alg, "EdDSA");
    assert_eq!(h.kid, "serial");
    let b = Body::new(1617900000, "jti".to_string(), "mn".to_string());
    assert_eq!(b.iat, "1617900000");
    assert_eq!(Body::new(0, String::new(), String::new()).iat, "0");
}

#[test]
fn the_client_of_the_device() {
    let st = SmartThings::new(configuration("ED25519", PRIVATE, PUBLIC)).unwrap();
    let b = st.client_options("token");
    assert_eq!(b.host, "mqtt-regional-useast1.api.smartthings.com");
    assert_eq!(b.port, 8883);
    assert_eq!(b.client_id.as_deref(), Some("mqtt-console-rs"));
    assert_eq!(b.password.as_deref(), Some("token"));
    assert_eq!(b.username.as_deref(), Some("dev-1"));
    assert_eq!(b.keep_alive, my_home::mqtt::KeepAlive::Enabled { secs: 60 });
    let topics = st.subscriptions();
    assert_eq!(topics[0].0, "/v1/commands/dev-1");
    assert_eq!(topics[1].0, "/v1/notifications/dev-1");
    assert_eq!(topics[1].1, my_home::mqtt::QualityOfService::Level0);
}

#[test]
fn only_canonical_base64_keys_are_decoded() {
    // "AA==" encodes one zero byte; "AB==" sets bits that no byte encodes
    match keypair_from_config(&configuration("ED25519", "AA==", PUBLIC)) {
        Err(JwtError::InvalidKeyLength(name, len)) => {
            assert_eq!(name, "private");
            assert_eq!(len, 1);
        }
        r => panic!("unexpected {:?}", r.err()),
    }
    assert!(matches!(keypair_from_config(&configuration("ED25519", "AB==", PUBLIC)), Err(JwtError::DecodeBase64(_))));
    assert!(matches!(keypair_from_config(&configuration("ED25519", "AAA", PUBLIC)), Err(JwtError::DecodeBase64(_))));
}
