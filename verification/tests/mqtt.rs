use my_home::mqtt::connection::{ConnectionState, Incoming, QoSWithPacketIdentifier, ReadAction};
use my_home::mqtt::{publish_command, HandleError, Publish, WriterCommand};
use my_home::mqtt::{check_connect, check_publish, client_id_or_default, Builder, ClientError, KeepAlive, QualityOfService};

#[test]
fn packet_identifiers_increase_and_wrap() {
    let mut c: ConnectionState<&str> = ConnectionState::new();
    assert_eq!(c.next_pid(), 1);
    assert_eq!(c.next_pid(), 2);
    for _ in 0..65533 {
        c.next_pid();
    }
    assert_eq!(c.next_pid(), 0);
    assert_eq!(c.next_pid(), 1);
}

#[test]
fn an_acknowledgement_answers_the_request_that_waits_for_it() {
    let mut c: ConnectionState<&str> = ConnectionState::new();
    assert_eq!(c.publish_qos(QualityOfService::Level0, None), (QoSWithPacketIdentifier::Level0, false));
    assert_eq!(c.publish_qos(QualityOfService::Level1, Some("first")), (QoSWithPacketIdentifier::Level1(1), false));
    assert_eq!(c.publish_qos(QualityOfService::Level1, Some("second")), (QoSWithPacketIdentifier::Level1(2), false));
    assert!(matches!(c.on_packet(Incoming::Puback(2)), ReadAction::Respond("second")));
    assert!(matches!(c.on_packet(Incoming::Puback(2)), ReadAction::UnknownPacketIdentifier(2)));
    assert!(matches!(c.on_packet(Incoming::Suback(1)), ReadAction::Respond("first")));
    assert!(matches!(c.on_packet(Incoming::Pingresp), ReadAction::NotifyTimer));
    assert!(matches!(c.on_packet(Incoming::Publish), ReadAction::Enqueue));
    assert!(matches!(c.on_packet(Incoming::Other), ReadAction::Ignore));
    assert_eq!(c.acknowledge(1), None);
}

#[test]
fn builder_keeps_what_it_is_given() {
    let b = Builder::new("mqtt-regional-useast1.api.smartthings.com", 8883)
        .set_client_id("mqtt-console-rs")
        .set_password("jwt")
        .set_keep_alive(KeepAlive::Enabled { secs: 60 })
        .set_user_name("device");
    assert_eq!(b.host, "mqtt-regional-useast1.api.smartthings.com");
    assert_eq!(b.port, 8883);
    assert_eq!(b.client_id.as_deref(), Some("mqtt-console-rs"));
    assert_eq!(b.password.as_deref(), Some("jwt"));
    assert_eq!(b.username.as_deref(), Some("device"));
    assert_eq!(b.keep_alive.secs(), 60);
    assert_eq!(KeepAlive::Disabled.secs(), 0);
}

#[test]
fn client_identifier_defaults() {
    assert_eq!(client_id_or_default(&None), "fc606d39-ac57-40e0-8b41-891ee3088e46");
    assert_eq!(client_id_or_default(&Some("me".to_string())), "me");
}

#[test]
fn connection_checks() {
    assert!(matches!(check_connect(true), Err(ClientError::AlreadyConnected)));
    assert!(check_connect(false).is_ok());
    assert!(matches!(check_publish(false), Err(ClientError::NotConnected)));
    assert!(check_publish(true).is_ok());
}

#[test]
fn publish_commands_check_the_topic_name() {
    let ok = publish_command(Publish::new("/v1/deviceEvents/x".to_string(), vec![1], QualityOfService::Level1));
    match ok {
        Ok(WriterCommand::Publish(topic, qos, payload)) => {
            assert_eq!(topic, "/v1/deviceEvents/x");
            assert_eq!(qos, QualityOfService::Level1);
            assert_eq!(payload, vec![1]);
        }
        r => panic!("unexpected {:?}", r),
    }
    for bad in ["", "a/+/b", "a/#"] {
        match publish_command(Publish::new(bad.to_string(), vec![], QualityOfService::Level0)) {
            Err(HandleError::InvalidTopicName(t)) => assert_eq!(t, bad),
            r => panic!("unexpected {:?}", r),
        }
    }
}

#[test]
fn connect_settings_of_a_client() {
    let s = Builder::new("h", 1).set_keep_alive(KeepAlive::Enabled { secs: 30 }).set_user_name("u").connect_settings();
    assert_eq!(s.client_id, "fc606d39-ac57-40e0-8b41-891ee3088e46");
    assert_eq!(s.keep_alive, 30);
    assert!(s.clean_session);
    assert_eq!(s.user_name.as_deref(), Some("u"));
    assert_eq!(s.password, None);
    let s = Builder::new("h", 1).set_client_id("me").connect_settings();
    assert_eq!(s.client_id, "me");
    assert_eq!(s.keep_alive, 0);
}
