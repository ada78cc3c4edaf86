use std::cell::RefCell;

use azure_iot_operations::connection_settings::MqttConnectionSettings;
use azure_iot_operations::control_packet::{
    PublishProperties, QoS, SubscribeProperties, UnsubscribeProperties,
};
use azure_iot_operations::error::{
    AckError, AckErrorKind, DisconnectError, DisconnectErrorKind, PublishError, PublishErrorKind,
    ReauthError, ReauthErrorKind, SubscribeError, SubscribeErrorKind, UnsubscribeError,
    UnsubscribeErrorKind,
};
use azure_iot_operations::session::receiver::PublishReceiverManager;
use azure_iot_operations::session::state::SessionState;
use azure_iot_operations::session::{
    ExitOutcome, Session, SessionConfigError, SessionError, SessionErrorRepr, SessionExitError,
    SessionExitErrorKind, SessionExitHandle, SessionOptionsBuilder,
};
use azure_iot_operations::time::Duration;
use azure_iot_operations::topic::TopicParseError;
use azure_iot_operations::unified_mqtt_adapter::{
    client, publish, subscribe, unsubscribe, ClientError, ConnectionCallbackImpl,
    ConnectionOptions, ConnectionSettingsAdapterError, ConnectionSettingsField, ConnectionStatus,
    MqttAdapterError, TlsError, TlsFiles,
};
use bytes::Bytes;

fn settings() -> MqttConnectionSettings {
    MqttConnectionSettings {
        client_id: "test_client".to_string(),
        hostname: "localhost".to_string(),
        tcp_port: 1883,
        keep_alive: Duration::from_secs(60),
        receive_max: 20,
        receive_packet_size_max: None,
        session_expiry: Duration::from_secs(3600),
        connection_timeout: Duration::from_secs(30),
        clean_start: true,
        username: None,
        password: None,
        password_file: None,
        use_tls: false,
        ca_file: None,
        cert_file: None,
        key_file: None,
        key_password_file: None,
        sat_file: None,
    }
}

fn no_text(path: String) -> Result<String, String> {
    Err(format!("no text in {path}"))
}

fn no_bytes(path: String) -> Result<Vec<u8>, String> {
    Err(format!("no bytes in {path}"))
}

fn options() -> ConnectionOptions {
    ConnectionOptions::try_from(&settings(), &no_text, &no_bytes).unwrap()
}

#[test]
fn connection_options_of_plain_settings() {
    assert_eq!(
        options(),
        ConnectionOptions {
            client_id: "test_client".to_string(),
            keep_alive: 60,
            receive_maximum: 20,
            max_packet_size: u32::MAX,
            clean_start: true,
            session_expiry_interval: 3600,
            username: None,
            password: None,
            authentication_method: None,
            authentication_data: None,
            user_properties: vec![],
        }
    );
    let mut s = settings();
    s.receive_packet_size_max = Some(1000);
    s.clean_start = false;
    // Only the lower bits of the keep alive interval are taken
    s.keep_alive = Duration::from_secs(65536 + 7);
    let o = ConnectionOptions::try_from(&s, &no_text, &no_bytes).unwrap();
    assert_eq!(o.max_packet_size, 1000);
    assert!(!o.clean_start);
    assert_eq!(o.keep_alive, 7);
}

#[test]
fn connection_options_session_expiry_limits() {
    let mut s = settings();
    for secs in [5, u32::MAX as u64] {
        s.session_expiry = Duration::from_secs(secs);
        let o = ConnectionOptions::try_from(&s, &no_text, &no_bytes).unwrap();
        assert_eq!(o.session_expiry_interval as u64, secs);
    }
    s.session_expiry = Duration::new(4, 999_999_999);
    let e = ConnectionOptions::try_from(&s, &no_text, &no_bytes).unwrap_err();
    assert_eq!(e.msg, "require > 5 seconds");
    assert_eq!(e.field, ConnectionSettingsField::SessionExpiry(s.session_expiry));
    assert_eq!(e.source, None);
    assert_eq!(
        e.to_string(),
        "require > 5 seconds: Session Expiry: 4.999999999s"
    );
    s.session_expiry = Duration::from_secs(u32::MAX as u64 + 1);
    let e = ConnectionOptions::try_from(&s, &no_text, &no_bytes).unwrap_err();
    assert_eq!(e.msg, "cannot convert to u32");
    let std_error = u32::try_from(u32::MAX as u64 + 1).unwrap_err();
    assert_eq!(e.source, Some(std_error.to_string()));
}

#[test]
fn connection_options_password() {
    let mut s = settings();
    // Without a user name there is no password, and no file is read
    s.password = Some("SECRET-REDACTED".to_string());
    s.password_file = Some("pw".to_string());
    let o = ConnectionOptions::try_from(&s, &no_text, &no_bytes).unwrap();
    assert_eq!((o.username, o.password), (None, None));

    s.username = Some("user".to_string());
    let e = ConnectionOptions::try_from(&s, &no_text, &no_bytes).unwrap_err();
    assert_eq!(
        e,
        ConnectionSettingsAdapterError {
            msg: "cannot read password file".to_string(),
            field: ConnectionSettingsField::PasswordFile("pw".to_string()),
            source: Some("no text in pw".to_string()),
        }
    );
    assert_eq!(
        e.to_string(),
        "cannot read password file: Password File: \"pw\""
    );

    let read_to_string = |path: String| Ok(format!("text of {path}"));
    let o = ConnectionOptions::try_from(&s, &read_to_string, &no_bytes).unwrap();
    assert_eq!(o.username, Some("user".to_string()));
    assert_eq!(o.password, Some("text of pw".to_string()));

    s.password_file = None;
    let o = ConnectionOptions::try_from(&s, &no_text, &no_bytes).unwrap();
    assert_eq!(o.password, Some("SECRET-REDACTED".to_string()));
    s.password = None;
    let o = ConnectionOptions::try_from(&s, &no_text, &no_bytes).unwrap();
    assert_eq!(o.password, Some(String::new()));
}

#[test]
fn connection_options_sat_file() {
    let mut s = settings();
    s.sat_file = Some("a\"b".to_string());
    let e = ConnectionOptions::try_from(&s, &no_text, &no_bytes).unwrap_err();
    assert_eq!(e.source, Some("no bytes in a\"b".to_string()));
    assert_eq!(
        e.to_string(),
        "cannot read sat auth file: SAT Auth File: \"a\\\"b\""
    );
    let read = |_: String| Ok(vec![1, 2, 3]);
    let o = ConnectionOptions::try_from(&s, &no_text, &read).unwrap();
    assert_eq!(o.authentication_method, Some("K8S-SAT".to_string()));
    assert_eq!(o.authentication_data, Some(vec![1, 2, 3]));
}

#[test]
fn files_are_not_read_after_a_fault() {
    let mut s = settings();
    s.username = Some("user".to_string());
    s.password_file = Some("pw".to_string());
    s.sat_file = Some("sat".to_string());
    let read = RefCell::new(Vec::new());
    let read_to_string = |path: String| {
        read.borrow_mut().push(path);
        Err::<String, String>("unreadable".to_string())
    };
    let read_bytes = |path: String| {
        read.borrow_mut().push(path);
        Ok(vec![])
    };
    assert!(ConnectionOptions::try_from(&s, &read_to_string, &read_bytes).is_err());
    assert_eq!(*read.borrow(), vec!["pw".to_string()]);
    s.session_expiry = Duration::from_secs(1);
    assert!(ConnectionOptions::try_from(&s, &read_to_string, &read_bytes).is_err());
    assert_eq!(read.borrow().len(), 1);
}

#[test]
fn client_setup() {
    let mut s = settings();
    s.use_tls = true;
    s.ca_file = Some("ca".to_string());
    s.key_file = Some("key".to_string());
    let properties = vec![("k".to_string(), "v".to_string())];
    let setup = client(s, 7, true, properties.clone(), &no_text, &no_bytes).unwrap();
    assert_eq!(setup.hostname, "localhost");
    assert_eq!(setup.tcp_port, 1883);
    assert_eq!(setup.channel_capacity, 7);
    assert!(setup.manual_ack);
    assert_eq!(setup.options.user_properties, properties);
    assert_eq!(
        setup.tls,
        Some(TlsFiles {
            ca_file: Some("ca".to_string()),
            cert_file: None,
            key_file: Some("key".to_string()),
        })
    );

    let setup = client(settings(), usize::MAX - 1, false, vec![], &no_text, &no_bytes).unwrap();
    assert_eq!(setup.tls, None);
    assert!(!setup.manual_ack);

    let e = client(settings(), usize::MAX, true, vec![], &no_text, &no_bytes).unwrap_err();
    assert_eq!(
        e.to_string(),
        "Other adapter error: mqtt client does not support channel capacity of usize::MAX"
    );
    let mut s = settings();
    s.session_expiry = Duration::from_secs(0);
    let e = client(s, 1, true, vec![], &no_text, &no_bytes).unwrap_err();
    assert!(matches!(e, MqttAdapterError::ConnectionSettings(_)));
    assert_eq!(e.to_string(), "require > 5 seconds: Session Expiry: 0ns");
}

#[test]
fn settings_field_text() {
    assert_eq!(
        ConnectionSettingsField::UseTls(true).to_string(),
        "Use TLS: true"
    );
    assert_eq!(
        ConnectionSettingsField::UseTls(false).to_string(),
        "Use TLS: false"
    );
    assert_eq!(TlsError::new("bad certificate").to_string(), "bad certificate");
}

#[test]
fn topics_are_checked_before_the_client_is_asked() {
    let r = publish(
        "a/b".to_string(),
        QoS::AtLeastOnce,
        true,
        Bytes::from("x"),
        Some(PublishProperties::default()),
    )
    .unwrap();
    assert_eq!(r.topic, "a/b");
    assert_eq!(r.qos, QoS::AtLeastOnce);
    assert!(r.retain);
    assert_eq!(r.payload, Bytes::from("x"));
    assert_eq!(r.properties, Some(PublishProperties::default()));
    let e = publish("a/#".to_string(), QoS::AtMostOnce, false, Bytes::new(), None).unwrap_err();
    assert_eq!(e.kind(), &PublishErrorKind::InvalidTopicName);

    let properties = SubscribeProperties {
        subscription_identifier: Some(3),
        user_properties: vec![],
    };
    let r = subscribe("a/#".to_string(), QoS::ExactlyOnce, Some(properties.clone())).unwrap();
    assert_eq!(r.topic, "a/#");
    assert_eq!(r.properties, Some(properties));
    let e = subscribe("#/a".to_string(), QoS::AtMostOnce, None).unwrap_err();
    assert_eq!(e.kind(), &SubscribeErrorKind::InvalidTopicFilter);

    let properties = UnsubscribeProperties {
        user_properties: vec![("a".to_string(), "b".to_string())],
    };
    let r = unsubscribe("+".to_string(), Some(properties.clone())).unwrap();
    assert_eq!(r.properties, Some(properties));
    let e = unsubscribe(String::new(), None).unwrap_err();
    assert_eq!(e.kind(), &UnsubscribeErrorKind::InvalidTopicFilter);
}

#[test]
fn client_errors_mean_that_the_client_is_detached() {
    let error = || ClientError("any".to_string());
    assert_eq!(
        PublishError::from(error()).kind(),
        &PublishErrorKind::DetachedClient
    );
    assert_eq!(
        SubscribeError::from(error()).kind(),
        &SubscribeErrorKind::DetachedClient
    );
    assert_eq!(
        UnsubscribeError::from(error()).kind(),
        &UnsubscribeErrorKind::DetachedClient
    );
    assert_eq!(AckError::from(error()).kind(), &AckErrorKind::DetachedClient);
    assert_eq!(
        DisconnectError::from(error()).kind(),
        &DisconnectErrorKind::DetachedClient
    );
    assert_eq!(
        ReauthError::from(error()).kind(),
        &ReauthErrorKind::DetachedClient
    );
}

#[test]
fn error_messages() {
    let detached = "client is detached from connection/event loop";
    assert_eq!(
        PublishError::new(PublishErrorKind::DetachedClient).to_string(),
        detached
    );
    assert_eq!(
        PublishError::new(PublishErrorKind::InvalidTopicName).to_string(),
        "invalid topic name"
    );
    assert_eq!(
        SubscribeError::new(SubscribeErrorKind::InvalidTopicFilter).to_string(),
        "invalid topic filter"
    );
    assert_eq!(
        SubscribeError::new(SubscribeErrorKind::DetachedClient).to_string(),
        detached
    );
    assert_eq!(
        UnsubscribeError::new(UnsubscribeErrorKind::InvalidTopicFilter).to_string(),
        "invalid topic filter"
    );
    assert_eq!(
        UnsubscribeError::new(UnsubscribeErrorKind::DetachedClient).to_string(),
        detached
    );
    assert_eq!(
        AckError::new(AckErrorKind::AlreadyAcked).to_string(),
        "publish already acknowledged"
    );
    assert_eq!(AckError::new(AckErrorKind::DetachedClient).to_string(), detached);
    assert_eq!(
        DisconnectError::new(DisconnectErrorKind::DetachedClient).to_string(),
        detached
    );
    assert_eq!(
        ReauthError::new(ReauthErrorKind::DetachedClient).to_string(),
        detached
    );
}

#[test]
fn reconnect_attempts() {
    let mut callback = ConnectionCallbackImpl::new();
    let mut o = options();
    let asked = RefCell::new(Vec::new());
    let policy = |attempts: u32, reason: String| {
        asked.borrow_mut().push((attempts, reason));
        if attempts < 2 {
            Some(Duration::from_secs(attempts as u64 + 1))
        } else {
            None
        }
    };
    assert!(!callback.state().is_connected());
    assert_eq!(callback.status(&ConnectionStatus::Connected, &mut o, &policy), None);
    assert!(callback.state().is_connected());
    assert!(!o.clean_start);
    assert!(asked.borrow().is_empty());

    let lost = ConnectionStatus::Disconnected("lost".to_string());
    assert_eq!(
        callback.status(&lost, &mut o, &policy),
        Some(Duration::from_secs(1))
    );
    assert!(!callback.state().is_connected());
    assert_eq!(callback.status(&ConnectionStatus::Other, &mut o, &policy), None);
    assert_eq!(
        callback.status(&lost, &mut o, &policy),
        Some(Duration::from_secs(2))
    );
    // The policy halts the attempts
    assert_eq!(callback.status(&lost, &mut o, &policy), None);
    assert_eq!(callback.status(&lost, &mut o, &policy), None);
    // A connection clears the count
    callback.status(&ConnectionStatus::Connected, &mut o, &policy);
    assert_eq!(
        callback.status(&lost, &mut o, &policy),
        Some(Duration::from_secs(1))
    );
    let attempts: Vec<u32> = asked.borrow().iter().map(|(n, _)| *n).collect();
    assert_eq!(attempts, vec![0, 1, 2, 2, 0]);
    assert_eq!(asked.borrow()[0].1, "lost");
}

#[test]
fn session_options_defaults() {
    let o = SessionOptionsBuilder::default()
        .connection_settings(settings())
        .build()
        .unwrap();
    assert_eq!(o.outgoing_max, 100);
    assert!(o.aio_broker_features);
    assert_eq!(o.connection_settings, settings());
    let e = SessionOptionsBuilder::default().build().unwrap_err();
    assert_eq!(e.to_string(), "`connection_settings` must be initialized");
}

#[test]
fn session_is_configured() {
    let mut s = settings();
    s.sat_file = Some("sat".to_string());
    let o = SessionOptionsBuilder::default()
        .connection_settings(s)
        .outgoing_max(5)
        .build()
        .unwrap();
    let mut session = Session::new(o, &no_text, &|_: String| Ok(vec![9])).unwrap();
    let setup = session.client_setup();
    assert_eq!(setup.channel_capacity, 5);
    assert!(setup.manual_ack);
    assert_eq!(
        setup.options.user_properties,
        vec![("metriccategory".to_string(), "aiosdk-rust".to_string())]
    );
    assert_eq!(setup.options.authentication_data, Some(vec![9]));
    assert_eq!(session.create_managed_client().client_id(), "test_client");

    // A session is not connected at first
    assert!(!session.create_connection_monitor().is_connected());
    let e = session.create_exit_handle().try_exit().unwrap_err();
    assert_eq!(e.kind(), SessionExitErrorKind::BrokerUnavailable);
    assert!(!e.attempted());
    let mut state = SessionState::default();
    state.transition_connected();
    session.set_state(state);
    assert!(session.create_connection_monitor().is_connected());
    assert_eq!(session.create_exit_handle().try_exit(), Ok(()));
    state.transition_disconnected();
    session.set_state(state);
    assert!(!session.create_connection_monitor().is_connected());
    let e = session.create_exit_handle().try_exit().unwrap_err();
    assert_eq!(e.kind(), SessionExitErrorKind::BrokerUnavailable);
    assert!(!e.attempted());

    let o = SessionOptionsBuilder::default()
        .connection_settings(settings())
        .aio_broker_features(false)
        .build()
        .unwrap();
    let session = Session::new(o, &no_text, &no_bytes).unwrap();
    assert!(session.client_setup().options.user_properties.is_empty());
}

#[test]
fn session_config_errors() {
    let o = SessionOptionsBuilder::default()
        .connection_settings(settings())
        .outgoing_max(usize::MAX)
        .build()
        .unwrap();
    let e: SessionConfigError = Session::new(o, &no_text, &no_bytes).err().unwrap();
    assert_eq!(
        e.to_string(),
        "Other adapter error: mqtt client does not support channel capacity of usize::MAX"
    );
}

#[test]
fn exit_outcomes() {
    assert_eq!(SessionExitHandle::finish_exit(ExitOutcome::Exited), Ok(()));
    for outcome in [ExitOutcome::Disconnected, ExitOutcome::TimedOut] {
        let e = SessionExitHandle::finish_exit(outcome).unwrap_err();
        assert_eq!(e.kind(), SessionExitErrorKind::BrokerUnavailable);
        assert!(e.attempted());
        assert_eq!(
            e.to_string(),
            "Could not contact broker (network attempt = true)"
        );
    }
    let detached = DisconnectError::new(DisconnectErrorKind::DetachedClient);
    let e = SessionExitHandle::finish_exit(ExitOutcome::Detached(detached)).unwrap_err();
    assert_eq!(e.kind(), SessionExitErrorKind::Detached);
    assert!(e.attempted());
    assert_eq!(
        SessionExitError::new(SessionExitErrorKind::Detached, false).to_string(),
        "Detached from Session (network attempt = false)"
    );
}

#[test]
fn session_error_messages() {
    let message = |repr| SessionError(repr).to_string();
    assert_eq!(
        message(SessionErrorRepr::SessionLost),
        "session state not present on broker after reconnect"
    );
    assert_eq!(
        message(SessionErrorRepr::ReconnectHalted),
        "reconnection halted by reconnect policy"
    );
    assert_eq!(message(SessionErrorRepr::ForceExit), "session ended by force exit");
    assert_eq!(message(SessionErrorRepr::ConnectionError("a".to_string())), "a");
    assert_eq!(message(SessionErrorRepr::IoError("b".to_string())), "b");
    assert_eq!(message(SessionErrorRepr::SatAuthError("c".to_string())), "c");
}

#[test]
fn managed_client_creates_receivers() {
    let o = SessionOptionsBuilder::default()
        .connection_settings(settings())
        .build()
        .unwrap();
    let client = Session::new(o, &no_text, &no_bytes)
        .unwrap()
        .create_managed_client();
    let mut manager = PublishReceiverManager::default();
    let rx = client
        .create_filtered_pub_receiver(&mut manager, "a/+")
        .unwrap();
    assert_eq!(manager.filtered_txs.len(), 1);
    assert_eq!(manager.filtered_txs[0].topic_filter.as_str(), "a/+");
    assert!(!manager.filtered_txs[0].tx.is_closed());
    assert_eq!(
        client
            .create_filtered_pub_receiver(&mut manager, "a+")
            .err()
            .unwrap(),
        TopicParseError::MisplacedWildcard
    );
    assert_eq!(manager.filtered_txs.len(), 1);
    let unfiltered = client.create_unfiltered_pub_receiver(&mut manager);
    assert_eq!(manager.unfiltered_txs.len(), 1);
    drop(rx);
    assert!(manager.filtered_txs[0].tx.is_closed());
    drop(unfiltered);
}
