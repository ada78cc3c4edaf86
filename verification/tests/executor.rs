use std::cell::{Cell, RefCell};

use azure_iot_operations::common::aio_protocol_error::{
    AIOProtocolError, AIOProtocolErrorKind, Value,
};
use azure_iot_operations::common::payload_serialize::{
    DeserializationError, FormatIndicator, PayloadSerialize, SerializedPayload,
};
use azure_iot_operations::control_packet::{Publish, PublishProperties, QoS};
use azure_iot_operations::rpc_command::executor::arguments::ResponseArguments;
use azure_iot_operations::rpc_command::executor::cache::{
    Cache, CacheEntry, CacheEntryStatus, CacheKey,
};
use azure_iot_operations::rpc_command::executor::contents::{ClockOutcome, HLCErrorKind};
use azure_iot_operations::rpc_command::executor::processing::{
    publish_completion, response_wait, ApplicationOutcome, Processed, ResponseMessage,
};
use azure_iot_operations::rpc_command::executor::{
    application_error_headers, deliver, settle, ClientOutcome, Executor, OptionsBuilder, Reception, Request,
    Response, ResponseBuilder, ResponseBuilderError,
};
use azure_iot_operations::rpc_command::StatusCode;
use azure_iot_operations::time::{Duration, Instant};
use bytes::Bytes;

/// A payload that is serialized as the test wants, and deserialized unless its bytes say otherwise.
#[derive(Debug, PartialEq)]
struct MockPayload {
    serialized: Result<SerializedPayload, String>,
}

impl PayloadSerialize for MockPayload {
    fn serialize(self) -> Result<SerializedPayload, String> {
        self.serialized
    }

    fn deserialize(
        payload: Vec<u8>,
        content_type: Option<String>,
        format_indicator: FormatIndicator,
    ) -> Result<Self, DeserializationError> {
        if payload == b"bad".to_vec() {
            return Err(DeserializationError::InvalidPayload("\"bad bytes\"".to_string()));
        }
        if content_type == Some("text/unknown".to_string()) || payload == b"untyped".to_vec() {
            return Err(DeserializationError::UnsupportedContentType(
                "no such type".to_string(),
            ));
        }
        Ok(MockPayload {
            serialized: Ok(SerializedPayload {
                payload,
                content_type: content_type.unwrap_or_default(),
                format_indicator,
            }),
        })
    }
}

fn at(secs: u64) -> Instant {
    Instant::at(Duration::from_secs(secs))
}

fn topic_tokens() -> Vec<(String, String)> {
    vec![
        ("executorId".to_string(), "test_executor_id".to_string()),
        ("commandName".to_string(), "test_command_name".to_string()),
    ]
}

fn create_executor() -> Executor {
    let options = OptionsBuilder::default()
        .request_topic_pattern("test/request".to_string())
        .command_name("test_command_name".to_string())
        .build()
        .unwrap();
    let (executor, ()) = Executor::new(options, Ok("test/request".to_string()), |_: String| Ok(()))
        .unwrap();
    executor
}

fn serialized(payload: &[u8]) -> SerializedPayload {
    SerializedPayload {
        payload: payload.to_vec(),
        content_type: "application/json".to_string(),
        format_indicator: FormatIndicator::Utf8EncodedCharacterData,
    }
}

fn response(payload: &[u8], data: Vec<(String, String)>) -> Response<MockPayload> {
    ResponseBuilder::default()
        .custom_user_data(data)
        .payload(MockPayload {
            serialized: Ok(serialized(payload)),
        })
        .unwrap()
        .build()
        .unwrap()
}

fn pair(key: &str, value: &str) -> (String, String) {
    (key.to_string(), value.to_string())
}

/// A request that nothing is wrong with.
fn create_request() -> Publish {
    let properties = PublishProperties {
        payload_format_indicator: Some(1),
        message_expiry_interval: Some(30),
        response_topic: Some("test/response".to_string()),
        correlation_data: Some(Bytes::from(vec![7u8; 16])),
        user_properties: vec![
            pair("__ts", "001:0:node"),
            pair("__srcId", "invoker"),
            pair("__protVer", "1.0"),
            pair("$partition", "p"),
            pair("custom", "value"),
            pair("__stat", "200"),
        ],
        content_type: Some("application/json".to_string()),
        ..PublishProperties::default()
    };
    let mut publish = Publish::new(
        "test/request",
        QoS::AtLeastOnce,
        Bytes::from("{}"),
        Some(properties),
    );
    publish.pkid = 5;
    publish
}

fn properties_of(publish: &mut Publish) -> &mut PublishProperties {
    publish.properties.as_mut().unwrap()
}

/// Hands a message to an executor at a point in time. The clock accepts every timestamp.
fn receive(executor: &Executor, publish: &Publish, secs: u64) -> Reception<MockPayload> {
    executor.recv(
        Some((publish, true)),
        &|_: String| ClockOutcome::Updated,
        &|topic: String| vec![("topic".to_string(), topic)],
        &|| at(secs),
    )
}

fn answered(reception: Reception<MockPayload>) -> ResponseArguments {
    match reception {
        Reception::Answered(arguments) => arguments,
        other => panic!("Expected an answer, got {other:?}"),
    }
}

fn delivered(reception: Reception<MockPayload>) -> (Request<MockPayload>, ResponseArguments) {
    match reception {
        Reception::Delivered(request, arguments) => (request, arguments),
        other => panic!("Expected a request, got {other:?}"),
    }
}

fn published(processed: Processed) -> ResponseMessage {
    match processed {
        Processed::Publish(message) => message,
        other => panic!("Expected a response, got {other:?}"),
    }
}

fn value_of(message: &ResponseMessage, key: &str) -> Option<String> {
    message
        .properties
        .user_properties
        .iter()
        .find(|(k, _)| k == key)
        .map(|(_, v)| v.clone())
}

#[test]
fn test_new_defaults() {
    let executor_options = OptionsBuilder::default()
        .request_topic_pattern("test/{commandName}/{executorId}/request".to_string())
        .command_name("test_command_name".to_string())
        .topic_token_map(topic_tokens())
        .build()
        .unwrap();

    let asked = RefCell::new(Vec::new());
    let (executor, receiver) = Executor::new(
        executor_options,
        Ok("test/test_command_name/test_executor_id/request".to_string()),
        |topic: String| {
            asked.borrow_mut().push(topic);
            Ok(17)
        },
    )
    .unwrap();

    assert_eq!(
        executor.request_topic(),
        "test/test_command_name/test_executor_id/request"
    );
    assert!(!executor.is_idempotent());
    assert_eq!(receiver, 17);
    assert_eq!(
        asked.into_inner(),
        vec!["test/test_command_name/test_executor_id/request".to_string()]
    );
}

#[test]
fn test_new_override_defaults() {
    let executor_options = OptionsBuilder::default()
        .request_topic_pattern("test/{commandName}/{executorId}/request".to_string())
        .command_name("test_command_name".to_string())
        .topic_namespace("test_namespace".to_string())
        .topic_token_map(topic_tokens())
        .is_idempotent(true)
        .service_group_id("group".to_string())
        .build()
        .unwrap();
    assert_eq!(executor_options.topic_namespace, Some("test_namespace".to_string()));
    assert_eq!(executor_options.topic_token_map, topic_tokens());
    assert_eq!(executor_options.service_group_id, Some("group".to_string()));

    let (executor, ()) = Executor::new(
        executor_options,
        Ok("test_namespace/test/test_command_name/test_executor_id/request".to_string()),
        |_: String| Ok(()),
    )
    .unwrap();

    assert_eq!(
        executor.request_topic(),
        "test_namespace/test/test_command_name/test_executor_id/request"
    );
    assert!(executor.is_idempotent());
}

#[test]
fn test_new_empty_and_whitespace_command_name() {
    for command_name in ["", " "] {
        let executor_options = OptionsBuilder::default()
            .request_topic_pattern("test/{commandName}/request".to_string())
            .command_name(command_name.to_string())
            .topic_token_map(topic_tokens())
            .build()
            .unwrap();

        let executor: Result<(Executor, ()), AIOProtocolError> =
            Executor::new(executor_options, Ok("test/request".to_string()), |_: String| Ok(()));

        match executor {
            Err(e) => {
                assert_eq!(e.kind, AIOProtocolErrorKind::ConfigurationInvalid);
                assert!(e.is_shallow);
                assert!(!e.is_remote);
                assert_eq!(e.property_name, Some("command_name".to_string()));
                assert!(e.property_value == Some(Value::String(command_name.to_string())));
            }
            Ok(_) => {
                panic!("Expected error");
            }
        }
    }
}

#[test]
fn test_invalid_request_topic_string() {
    for request_topic in ["", " ", "test/{commandName}/\u{0}/request"] {
        let executor_options = OptionsBuilder::default()
            .request_topic_pattern(request_topic.to_string())
            .command_name("test_command_name".to_string())
            .topic_token_map(topic_tokens())
            .build()
            .unwrap();

        // The pattern is resolved outside of the executor: this shows that no executor is created
        // with one that does not resolve, and that the error is handed on unchanged.
        let pattern_error = AIOProtocolError::new_configuration_invalid_error(
            None,
            "executor_options.request_topic_pattern",
            Value::String(request_topic.to_string()),
            None,
            None,
        );
        let executor: Result<(Executor, ()), AIOProtocolError> =
            Executor::new(executor_options, Err(pattern_error), |_: String| Ok(()));

        match executor {
            Err(e) => {
                assert_eq!(e.kind, AIOProtocolErrorKind::ConfigurationInvalid);
                assert!(e.is_shallow);
                assert!(!e.is_remote);
                assert_eq!(
                    e.property_name,
                    Some("executor_options.request_topic_pattern".to_string())
                );
                assert!(e.property_value == Some(Value::String(request_topic.to_string())));
            }
            Ok(_) => {
                panic!("Expected error");
            }
        }
    }
}

#[test]
fn test_invalid_topic_namespace() {
    for topic_namespace in ["", " ", "test/\u{0}"] {
        let executor_options = OptionsBuilder::default()
            .request_topic_pattern("test/{commandName}/request".to_string())
            .command_name("test_command_name".to_string())
            .topic_namespace(topic_namespace.to_string())
            .topic_token_map(topic_tokens())
            .build()
            .unwrap();

        // As above, for a pattern that does not resolve because of its namespace
        let namespace_error = AIOProtocolError::new_configuration_invalid_error(
            None,
            "topic_namespace",
            Value::String(topic_namespace.to_string()),
            None,
            None,
        );
        let executor: Result<(Executor, ()), AIOProtocolError> =
            Executor::new(executor_options, Err(namespace_error), |_: String| Ok(()));
        match executor {
            Err(e) => {
                assert_eq!(e.kind, AIOProtocolErrorKind::ConfigurationInvalid);
                assert!(e.is_shallow);
                assert!(!e.is_remote);
                assert_eq!(e.property_name, Some("topic_namespace".to_string()));
                assert!(e.property_value == Some(Value::String(topic_namespace.to_string())));
            }
            Ok(_) => {
                panic!("Expected error");
            }
        }
    }
}

#[test]
fn new_fails_if_no_receiver_can_be_created() {
    let executor_options = OptionsBuilder::default()
        .request_topic_pattern("test/request".to_string())
        .command_name("name".to_string())
        .build()
        .unwrap();
    let executor: Result<(Executor, ()), AIOProtocolError> =
        Executor::new(executor_options, Ok("a/#/b".to_string()), |_: String| {
            Err("bad filter".to_string())
        });
    let e = executor.err().unwrap();
    assert_eq!(e.kind, AIOProtocolErrorKind::ConfigurationInvalid);
    assert_eq!(e.nested_error, Some("bad filter".to_string()));
    assert_eq!(e.property_name, Some("request_topic_pattern".to_string()));
    assert_eq!(e.property_value, Some(Value::String("a/#/b".to_string())));
    assert_eq!(
        e.message,
        Some("Could not parse request topic pattern".to_string())
    );
    assert_eq!(e.command_name, Some("name".to_string()));
}

#[test]
fn options_need_topic_pattern_and_command_name() {
    let e = OptionsBuilder::default().build().unwrap_err();
    assert_eq!(e.to_string(), "`request_topic_pattern` must be initialized");
    let e = OptionsBuilder::default()
        .request_topic_pattern("a".to_string())
        .build()
        .unwrap_err();
    assert_eq!(e.to_string(), "`command_name` must be initialized");
}

#[test]
fn test_shutdown_without_subscribe() {
    let mut executor = create_executor();
    assert!(executor.shutdown().is_none());
    // And again
    assert!(executor.shutdown().is_none());
    // It does not subscribe any more
    assert!(executor.try_subscribe().is_none());
    assert!(executor.topic_to_unsubscribe_on_drop().is_none());
}

#[test]
fn subscribe_and_shutdown() {
    let mut executor = create_executor();
    assert_eq!(
        executor.try_subscribe(),
        Some(("test/request".to_string(), QoS::AtLeastOnce))
    );

    // A subscribe that fails is attempted again
    let e = executor
        .finish_subscribe(ClientOutcome::NotSent("detached".to_string()))
        .unwrap_err();
    assert_eq!(e.kind, AIOProtocolErrorKind::ClientError);
    assert_eq!(
        e.message,
        Some("Client error on command executor subscribe".to_string())
    );
    assert_eq!(e.nested_error, Some("detached".to_string()));
    assert_eq!(e.command_name, Some("test_command_name".to_string()));
    let e = executor
        .finish_subscribe(ClientOutcome::AckFailed("not authorized".to_string()))
        .unwrap_err();
    assert_eq!(
        e.message,
        Some("MQTT error on command executor suback".to_string())
    );
    assert!(executor.try_subscribe().is_some());
    assert!(executor.topic_to_unsubscribe_on_drop().is_none());

    // One that succeeds is not
    executor.finish_subscribe(ClientOutcome::Acked).unwrap();
    assert!(executor.try_subscribe().is_none());
    assert_eq!(
        executor.topic_to_unsubscribe_on_drop(),
        Some("test/request".to_string())
    );

    // A shutdown that fails can be attempted again
    assert_eq!(executor.shutdown(), Some("test/request".to_string()));
    let e = executor
        .finish_shutdown(ClientOutcome::AckFailed("reason".to_string()))
        .unwrap_err();
    assert_eq!(
        e.message,
        Some("MQTT error on command executor unsuback".to_string())
    );
    assert_eq!(executor.shutdown(), Some("test/request".to_string()));
    let e = executor
        .finish_shutdown(ClientOutcome::NotSent("detached".to_string()))
        .unwrap_err();
    assert_eq!(
        e.message,
        Some("Client error on command executor unsubscribe".to_string())
    );
    assert_eq!(executor.shutdown(), Some("test/request".to_string()));
    executor.finish_shutdown(ClientOutcome::Acked).unwrap();
    assert!(executor.shutdown().is_none());
    assert!(executor.topic_to_unsubscribe_on_drop().is_none());
    assert!(executor.try_subscribe().is_none());
}

#[test]
fn test_response_serialization_error() {
    let mock_response_payload = MockPayload {
        serialized: Err("dummy error".to_string()),
    };

    let mut binding = ResponseBuilder::default();
    let resp_builder = binding.payload(mock_response_payload);
    match resp_builder {
        Err(e) => {
            assert_eq!(e.kind, AIOProtocolErrorKind::PayloadInvalid);
        }
        Ok(_) => {
            panic!("Expected error");
        }
    }
}

#[test]
fn test_response_serialization_bad_content_type_error() {
    let mock_response_payload = MockPayload {
        serialized: Ok(SerializedPayload {
            payload: Vec::new(),
            content_type: "application/json\u{0000}".to_string(),
            format_indicator: FormatIndicator::Utf8EncodedCharacterData,
        }),
    };

    let mut binding = ResponseBuilder::default();
    let resp_builder = binding.payload(mock_response_payload);
    match resp_builder {
        Err(e) => {
            assert_eq!(e.kind, AIOProtocolErrorKind::ConfigurationInvalid);
            assert!(e.is_shallow);
            assert!(!e.is_remote);
            assert_eq!(e.property_name, Some("content_type".to_string()));
            assert!(
                e.property_value == Some(Value::String("application/json\u{0000}".to_string()))
            );
            assert_eq!(
                e.message,
                Some(
                    "Content type 'application/json\u{0000}' of command response is not valid UTF-8"
                        .to_string()
                )
            );
        }
        Ok(_) => {
            panic!("Expected error");
        }
    }
}

#[test]
fn response_builder_keeps_payload_on_error() {
    let mut builder = ResponseBuilder::default();
    builder
        .payload(MockPayload {
            serialized: Ok(serialized(b"kept")),
        })
        .unwrap();
    let e = builder
        .payload(MockPayload {
            serialized: Err("dummy error".to_string()),
        })
        .err()
        .unwrap();
    assert_eq!(e.nested_error, Some("dummy error".to_string()));
    assert_eq!(e.message, Some("Payload serialization error".to_string()));
    let response = builder.build().unwrap();
    assert_eq!(response.serialized_payload, serialized(b"kept"));
    assert!(response.custom_user_data.is_empty());
}

#[test]
fn response_builder_errors() {
    let builder: ResponseBuilder<MockPayload> = ResponseBuilder::default();
    let e = builder.build().err().unwrap();
    assert_eq!(
        e,
        ResponseBuilderError::UninitializedField("serialized_payload")
    );
    assert_eq!(e.to_string(), "`serialized_payload` must be initialized");

    for data in [pair("$partition", "x"), pair("a\u{7}", "b"), pair("a", "b\u{FFFF}")] {
        let mut builder = ResponseBuilder::default();
        builder
            .payload(MockPayload {
                serialized: Ok(serialized(b"")),
            })
            .unwrap()
            .custom_user_data(vec![pair("fine", "fine"), data]);
        assert!(matches!(
            builder.build().err().unwrap(),
            ResponseBuilderError::ValidationError(_)
        ));
    }
}

#[test]
fn test_response_add_empty_error_payload_success() {
    let mock_response_payload = MockPayload {
        serialized: Ok(SerializedPayload {
            payload: Vec::new(),
            content_type: "application/json".to_string(),
            format_indicator: FormatIndicator::Utf8EncodedCharacterData,
        }),
    };

    let mut custom_user_data = Vec::new();
    assert!(application_error_headers(&mut custom_user_data, "500".into(), "  ".into()).is_ok());

    let response = ResponseBuilder::default()
        .custom_user_data(custom_user_data)
        .payload(mock_response_payload)
        .unwrap()
        .build()
        .unwrap();

    assert_eq!(response.custom_user_data.len(), 1);

    let mut app_error_code_header_found = false;
    let mut app_error_payload_header_found = false;
    for (key, value) in response.custom_user_data {
        if key == "AppErrCode" {
            app_error_code_header_found = true;
            assert_eq!(value, "500");
        }
        if key == "AppErrPayload" {
            app_error_payload_header_found = true;
        }
    }

    assert!(app_error_code_header_found);
    assert!(!app_error_payload_header_found);
}

#[test]
fn test_response_add_empty_error_code_error() {
    let mut custom_user_data = Vec::new();

    assert!(
        application_error_headers(&mut custom_user_data, " ".into(), "Some error".into()).is_err()
    );

    assert_eq!(custom_user_data.len(), 0);
}

#[test]
fn application_error_headers_are_appended() {
    let mut data = vec![pair("a", "b")];
    application_error_headers(&mut data, "42".to_string(), "{\"x\":1}".to_string()).unwrap();
    assert_eq!(
        data,
        vec![
            pair("a", "b"),
            pair("AppErrCode", "42"),
            pair("AppErrPayload", "{\"x\":1}")
        ]
    );
    let e = application_error_headers(&mut data, "\u{2003}\t\n".to_string(), "x".to_string())
        .unwrap_err();
    assert_eq!(e, "application_error_code cannot be empty");
    assert_eq!(data.len(), 3);
}

fn test_key() -> CacheKey {
    CacheKey {
        response_topic: String::from("test_response_topic"),
        correlation_data: Bytes::from("test_correlation_data"),
    }
}

fn test_entry(payload: &str, expiration_time: Instant) -> CacheEntry {
    CacheEntry {
        serialized_payload: SerializedPayload {
            payload: Bytes::from(payload.to_string()).to_vec(),
            content_type: "application/json".to_string(),
            format_indicator: FormatIndicator::Utf8EncodedCharacterData,
        },
        properties: PublishProperties::default(),
        expiration_time,
    }
}

#[test]
fn test_cache_not_found() {
    let cache = Cache::new();
    let status = cache.get(&test_key(), at(1000));
    assert_eq!(status, CacheEntryStatus::NotFound);
}

#[test]
fn test_cache_found() {
    let now = at(1000);
    let mut cache = Cache::new();
    let key = test_key();
    let entry = test_entry("test_payload", at(1060));
    cache.set(key.clone(), entry.clone(), now);
    let status = cache.get(&key, now);
    assert_eq!(status, CacheEntryStatus::Cached(entry));
}

#[test]
fn test_cache_expired() {
    let now = at(1000);
    let mut cache = Cache::new();
    let key = test_key();
    let entry = test_entry("test_payload", at(940));
    cache.set(key.clone(), entry, now);
    let status = cache.get(&key, now);
    assert_eq!(status, CacheEntryStatus::Expired);

    // Set a new entry and check if the expired entry is deleted
    let new_entry = test_entry("new_test_payload", at(1060));
    // The cache should never see another entry with the same key, this is for testing purposes only.
    cache.set(key.clone(), new_entry.clone(), now);

    let new_status = cache.get(&key, now);
    assert_eq!(new_status, CacheEntryStatus::Cached(new_entry));
}

#[test]
fn test_cache_expired_with_different_key_set() {
    let now = at(1000);
    let mut cache = Cache::new();
    let key = test_key();
    let entry = test_entry("test_payload", at(940));
    cache.set(key.clone(), entry, now);
    let status = cache.get(&key, now);
    assert_eq!(status, CacheEntryStatus::Expired);

    // Set a new entry with a different key and check if the expired entry is deleted
    let new_key = CacheKey {
        response_topic: String::from("new_test_response_topic"),
        correlation_data: Bytes::from("new_test_correlation_data"),
    };
    let new_entry = test_entry("new_test_payload", at(1060));
    cache.set(new_key.clone(), new_entry.clone(), now);

    let status = cache.get(&key, now);
    assert_eq!(status, CacheEntryStatus::NotFound);
    let status = cache.get(&new_key, now);
    assert_eq!(status, CacheEntryStatus::Cached(new_entry));
}

#[test]
fn cache_keys_are_compared_in_both_parts() {
    let now = at(5);
    let mut cache = Cache::new();
    let entry = test_entry("p", at(9));
    cache.set(test_key(), entry.clone(), now);
    let other_topic = CacheKey {
        response_topic: "x".to_string(),
        ..test_key()
    };
    let other_data = CacheKey {
        correlation_data: Bytes::from("x"),
        ..test_key()
    };
    assert_eq!(cache.get(&other_topic, now), CacheEntryStatus::NotFound);
    assert_eq!(cache.get(&other_data, now), CacheEntryStatus::NotFound);
    // An entry is cached up to its expiration time, that time included
    assert_eq!(cache.get(&test_key(), at(9)), CacheEntryStatus::Cached(entry));
    assert_eq!(
        cache.get(&test_key(), Instant::at(Duration::new(9, 1))),
        CacheEntryStatus::Expired
    );
}

#[test]
fn recv_hands_request_to_application() {
    let executor = create_executor();
    let (request, arguments) = delivered(receive(&executor, &create_request(), 100));
    assert_eq!(
        request.payload,
        MockPayload {
            serialized: Ok(SerializedPayload {
                payload: b"{}".to_vec(),
                content_type: "application/json".to_string(),
                format_indicator: FormatIndicator::Utf8EncodedCharacterData,
            })
        }
    );
    assert_eq!(request.content_type, Some("application/json".to_string()));
    assert_eq!(
        request.format_indicator,
        FormatIndicator::Utf8EncodedCharacterData
    );
    // Neither the partition key nor what the executor reads itself is handed on
    assert_eq!(
        request.custom_user_data,
        vec![pair("custom", "value"), pair("__stat", "200")]
    );
    assert_eq!(request.timestamp, Some("001:0:node".to_string()));
    assert_eq!(request.invoker_id, Some("invoker".to_string()));
    assert_eq!(request.topic_tokens, vec![pair("topic", "test/request")]);
    assert_eq!(request.command_name, "test_command_name");

    assert_eq!(arguments.response_topic, "test/response");
    assert_eq!(arguments.correlation_data, Some(Bytes::from(vec![7u8; 16])));
    assert_eq!(arguments.status_code, StatusCode::Success);
    assert_eq!(arguments.command_expiration_time, Some(at(130)));
    assert_eq!(arguments.message_expiry_interval, Some(30));
    assert_eq!(
        response_wait(&arguments, at(110)),
        Some(Duration::from_secs(20))
    );
    assert_eq!(
        response_wait(&arguments, at(131)),
        Some(Duration::from_secs(0))
    );
}

#[test]
fn recv_without_message_or_token() {
    let executor = create_executor();
    let clock = |_: String| ClockOutcome::Updated;
    let tokens = |_: String| Vec::new();
    let now = || at(1);
    let r: Reception<MockPayload> = executor.recv(None, &clock, &tokens, &now);
    assert!(matches!(r, Reception::NoMore));
    let publish = create_request();
    let r: Reception<MockPayload> =
        executor.recv(Some((&publish, false)), &clock, &tokens, &now);
    assert!(matches!(r, Reception::Ignored));
}

#[test]
fn recv_acknowledges_what_cannot_be_answered() {
    let executor = create_executor();
    let mut publish = create_request();
    properties_of(&mut publish).response_topic = None;
    assert!(matches!(
        receive(&executor, &publish, 1),
        Reception::Acknowledged
    ));
    for topic in ["", "a//b", "/a", "a/", "a b", "a/#", "a/{b}"] {
        properties_of(&mut publish).response_topic = Some(topic.to_string());
        assert!(matches!(
            receive(&executor, &publish, 1),
            Reception::Acknowledged
        ));
    }
    publish.properties = None;
    assert!(matches!(
        receive(&executor, &publish, 1),
        Reception::Acknowledged
    ));
}

#[test]
fn recv_correlation_data_faults() {
    let executor = create_executor();
    let mut publish = create_request();
    properties_of(&mut publish).correlation_data = None;
    let arguments = answered(receive(&executor, &publish, 1));
    assert_eq!(arguments.status_code, StatusCode::BadRequest);
    assert_eq!(
        arguments.status_message,
        Some("Correlation data missing".to_string())
    );
    assert_eq!(
        arguments.invalid_property_name,
        Some("Correlation Data".to_string())
    );
    assert_eq!(arguments.invalid_property_value, None);
    assert_eq!(arguments.cached_key, None);

    properties_of(&mut publish).correlation_data = Some(Bytes::from("too short"));
    let arguments = answered(receive(&executor, &publish, 1));
    assert_eq!(arguments.status_code, StatusCode::BadRequest);
    assert_eq!(
        arguments.status_message,
        Some("Correlation data bytes do not conform to a GUID".to_string())
    );
    assert_eq!(
        arguments.invalid_property_value,
        Some("too short".to_string())
    );
    assert_eq!(arguments.correlation_data, Some(Bytes::from("too short")));

    properties_of(&mut publish).correlation_data = Some(Bytes::from(vec![0xFFu8; 17]));
    let arguments = answered(receive(&executor, &publish, 1));
    assert_eq!(arguments.invalid_property_value, None);
}

#[test]
fn recv_message_expiry_faults() {
    let executor = create_executor();
    let mut publish = create_request();
    properties_of(&mut publish).message_expiry_interval = None;
    let arguments = answered(receive(&executor, &publish, 1));
    assert_eq!(arguments.status_code, StatusCode::BadRequest);
    assert_eq!(
        arguments.status_message,
        Some("Message expiry interval missing".to_string())
    );
    assert_eq!(
        arguments.invalid_property_name,
        Some("Message Expiry".to_string())
    );
    // The default interval applies
    assert_eq!(arguments.command_expiration_time, Some(at(11)));

    // The expiration time cannot be represented
    properties_of(&mut publish).message_expiry_interval = Some(1);
    let r: Reception<MockPayload> = executor.recv(
        Some((&publish, true)),
        &|_: String| ClockOutcome::Updated,
        &|_: String| Vec::new(),
        &|| at(u64::MAX),
    );
    match r {
        Reception::Failed(arguments, e) => {
            assert_eq!(arguments.status_code, StatusCode::InternalServerError);
            assert_eq!(
                arguments.status_message,
                Some(
                    "Internal logic error, unable to calculate command expiration time".to_string()
                )
            );
            assert_eq!(arguments.command_expiration_time, None);
            assert_eq!(e.kind, AIOProtocolErrorKind::InternalLogicError);
            assert!(e.is_shallow);
            assert!(!e.is_remote);
            assert_eq!(
                e.property_name,
                Some("command_expiration_time".to_string())
            );
            assert_eq!(e.command_name, Some("test_command_name".to_string()));
        }
        other => panic!("Expected a failure, got {other:?}"),
    }
}

#[test]
fn recv_protocol_version_faults() {
    let executor = create_executor();
    let mut publish = create_request();
    for version in ["one", "1", "1.0.0", "1.", ".1", "65536.0", "-1.0"] {
        properties_of(&mut publish).user_properties = vec![pair("__protVer", version)];
        let arguments = answered(receive(&executor, &publish, 1));
        assert_eq!(arguments.status_code, StatusCode::VersionNotSupported);
        assert_eq!(
            arguments.status_message,
            Some(format!(
                "Unparsable protocol version value provided: {version}."
            ))
        );
        assert_eq!(
            arguments.supported_protocol_major_versions,
            Some(vec![1u16])
        );
        assert_eq!(
            arguments.request_protocol_version,
            Some(version.to_string())
        );
    }

    properties_of(&mut publish).user_properties =
        vec![pair("__protVer", "02.10"), pair("__protVer", "1.0")];
    let arguments = answered(receive(&executor, &publish, 1));
    assert_eq!(arguments.status_code, StatusCode::VersionNotSupported);
    assert_eq!(
        arguments.status_message,
        Some(
            "The command executor that received the request only supports major protocol versions '[1]', but '2.10' was sent on the request."
                .to_string()
        )
    );
    assert_eq!(arguments.request_protocol_version, Some("2.10".to_string()));

    // Any minor version is supported, and so is no version
    properties_of(&mut publish).user_properties = vec![pair("__protVer", "1.7")];
    delivered(receive(&executor, &publish, 1));
    properties_of(&mut publish).user_properties = Vec::new();
    delivered(receive(&executor, &publish, 1));
}

#[test]
fn recv_timestamp_faults() {
    let executor = create_executor();
    let mut publish = create_request();
    properties_of(&mut publish).user_properties = vec![
        pair("__ts", "first"),
        pair("__ts", "second"),
        pair("__ts", "third"),
    ];
    let cases = vec![
        (
            ClockOutcome::Invalid("bad text".to_string()),
            StatusCode::BadRequest,
            "Timestamp invalid: bad text",
        ),
        (
            ClockOutcome::Failed(HLCErrorKind::ClockDrift, "drift".to_string()),
            StatusCode::ServiceUnavailable,
            "Failure updating application HLC against second: drift",
        ),
        (
            ClockOutcome::Failed(HLCErrorKind::OverflowWarning, "overflow".to_string()),
            StatusCode::InternalServerError,
            "Failure updating application HLC against second: overflow",
        ),
    ];
    for (outcome, status_code, message) in cases {
        let fault = Cell::new(Some(outcome));
        let asked = RefCell::new(Vec::new());
        let r: Reception<MockPayload> = executor.recv(
            Some((&publish, true)),
            &|timestamp: String| {
                let n = asked.borrow().len();
                asked.borrow_mut().push(timestamp);
                if n == 1 {
                    fault.take().unwrap()
                } else {
                    ClockOutcome::Updated
                }
            },
            &|_: String| Vec::new(),
            &|| at(1),
        );
        let arguments = answered(r);
        assert_eq!(arguments.status_code, status_code);
        assert_eq!(arguments.status_message, Some(message.to_string()));
        assert_eq!(arguments.invalid_property_name, Some("__ts".to_string()));
        assert_eq!(arguments.invalid_property_value, Some("second".to_string()));
        // The clock is not updated any more after the first fault
        assert_eq!(
            asked.into_inner(),
            vec!["first".to_string(), "second".to_string()]
        );
    }

    // Without faults the last timestamp is told
    let (request, _) = delivered(receive(&executor, &publish, 1));
    assert_eq!(request.timestamp, Some("third".to_string()));
}

#[test]
fn recv_content_faults() {
    let executor = create_executor();

    let mut publish = create_request();
    publish.topic = Bytes::from(vec![0x61u8, 0xFF]);
    let arguments = answered(receive(&executor, &publish, 1));
    assert_eq!(arguments.status_code, StatusCode::BadRequest);
    let error = std::str::from_utf8(&[0x61, 0xFF]).unwrap_err();
    assert_eq!(
        arguments.status_message,
        Some(format!("Error deserializing topic: {error:?}"))
    );

    let mut publish = create_request();
    publish.payload = Bytes::from("bad");
    let arguments = answered(receive(&executor, &publish, 1));
    assert_eq!(arguments.status_code, StatusCode::BadRequest);
    assert_eq!(
        arguments.status_message,
        Some("Error deserializing payload: \"bad bytes\"".to_string())
    );
    assert_eq!(arguments.invalid_property_name, None);

    let mut publish = create_request();
    properties_of(&mut publish).content_type = Some("text/unknown".to_string());
    let arguments = answered(receive(&executor, &publish, 1));
    assert_eq!(arguments.status_code, StatusCode::UnsupportedMediaType);
    assert_eq!(arguments.status_message, Some("no such type".to_string()));
    assert_eq!(
        arguments.invalid_property_name,
        Some("Content Type".to_string())
    );
    assert_eq!(
        arguments.invalid_property_value,
        Some("text/unknown".to_string())
    );

    let mut publish = create_request();
    publish.payload = Bytes::from("untyped");
    properties_of(&mut publish).content_type = None;
    let arguments = answered(receive(&executor, &publish, 1));
    assert_eq!(arguments.invalid_property_value, Some("None".to_string()));
}

#[test]
fn recv_unknown_format_indicator_is_unspecified_bytes() {
    let executor = create_executor();
    let mut publish = create_request();
    for code in [None, Some(0), Some(2)] {
        properties_of(&mut publish).payload_format_indicator = code;
        let (request, _) = delivered(receive(&executor, &publish, 1));
        assert_eq!(request.format_indicator, FormatIndicator::UnspecifiedBytes);
    }
}

#[test]
fn recv_discards_expired_commands() {
    let executor = create_executor();
    let mut faulty = create_request();
    properties_of(&mut faulty).correlation_data = None;
    for publish in [create_request(), faulty] {
        // The clock is read when the message is received, when the cache is looked at, and at the end
        let reads = Cell::new(0u64);
        let r: Reception<MockPayload> = executor.recv(
            Some((&publish, true)),
            &|_: String| ClockOutcome::Updated,
            &|_: String| Vec::new(),
            &|| {
                reads.set(reads.get() + 1);
                if reads.get() == 3 {
                    Instant::at(Duration::new(31, 1))
                } else {
                    at(1)
                }
            },
        );
        assert!(matches!(r, Reception::Discarded));
    }
}

#[test]
fn process_command_publishes_response() {
    let mut executor = create_executor();
    let (_, arguments) = delivered(receive(&executor, &create_request(), 100));
    let outcome = ApplicationOutcome::Responded(response(b"done", vec![pair("mine", "1")]));
    let message = published(executor.process_command(
        arguments,
        outcome,
        &|| Some("002:0:node".to_string()),
        &|| Instant::at(Duration::new(110, 500_000_000)),
    ));
    assert_eq!(message.topic, "test/response");
    assert_eq!(message.qos, QoS::AtLeastOnce);
    assert!(!message.retain);
    assert_eq!(message.payload, b"done".to_vec());
    assert_eq!(
        message.properties,
        PublishProperties {
            payload_format_indicator: Some(1),
            // 19.5 seconds are left
            message_expiry_interval: Some(20),
            topic_alias: None,
            response_topic: None,
            correlation_data: Some(Bytes::from(vec![7u8; 16])),
            user_properties: vec![
                pair("mine", "1"),
                pair("__apErr", "false"),
                pair("__stat", "200"),
                pair("__protVer", "1.0"),
                pair("__ts", "002:0:node"),
            ],
            subscription_identifiers: Vec::new(),
            content_type: Some("application/json".to_string()),
        }
    );
}

#[test]
fn process_command_without_timestamp_or_content() {
    let mut executor = create_executor();
    let (_, arguments) = delivered(receive(&executor, &create_request(), 100));
    let outcome = ApplicationOutcome::Responded(response(b"", Vec::new()));
    let message =
        published(executor.process_command(arguments, outcome, &|| None, &|| at(110)));
    assert_eq!(message.properties.message_expiry_interval, Some(20));
    assert_eq!(
        message.properties.user_properties,
        vec![
            pair("__apErr", "false"),
            pair("__stat", "204"),
            pair("__protVer", "1.0"),
        ]
    );
}

#[test]
fn process_command_dropped_by_application() {
    let mut executor = create_executor();
    let (_, arguments) = delivered(receive(&executor, &create_request(), 100));
    let outcome: ApplicationOutcome<MockPayload> = ApplicationOutcome::Dropped;
    let message =
        published(executor.process_command(arguments, outcome, &|| None, &|| at(110)));
    assert_eq!(value_of(&message, "__apErr"), Some("true".to_string()));
    assert_eq!(value_of(&message, "__stat"), Some("500".to_string()));
    assert_eq!(
        value_of(&message, "__stMsg"),
        Some("Request has been dropped by the application".to_string())
    );
    assert!(message.payload.is_empty());
    assert_eq!(message.properties.payload_format_indicator, Some(0));
    assert_eq!(message.properties.content_type, Some(String::new()));
}

#[test]
fn process_command_reports_faults() {
    let mut executor = create_executor();
    let mut publish = create_request();
    properties_of(&mut publish).user_properties = vec![pair("__protVer", "3.1")];
    let arguments = answered(receive(&executor, &publish, 100));
    let outcome: ApplicationOutcome<MockPayload> = ApplicationOutcome::NotAsked;
    let message = published(executor.process_command(
        arguments,
        outcome,
        &|| Some("ts".to_string()),
        &|| at(100),
    ));
    assert_eq!(
        message.properties.user_properties,
        vec![
            pair("__apErr", "false"),
            pair("__stat", "505"),
            pair("__protVer", "1.0"),
            pair("__ts", "ts"),
            pair(
                "__stMsg",
                "The command executor that received the request only supports major protocol versions '[1]', but '3.1' was sent on the request."
            ),
            pair("__supProtMajVer", "1"),
            pair("__requestProtVer", "3.1"),
        ]
    );

    properties_of(&mut publish).correlation_data = Some(Bytes::from("short"));
    let arguments = answered(receive(&executor, &publish, 100));
    let outcome: ApplicationOutcome<MockPayload> = ApplicationOutcome::NotAsked;
    let message =
        published(executor.process_command(arguments, outcome, &|| None, &|| at(100)));
    assert_eq!(value_of(&message, "__stat"), Some("400".to_string()));
    assert_eq!(
        value_of(&message, "__propName"),
        Some("Correlation Data".to_string())
    );
    assert_eq!(value_of(&message, "__propVal"), Some("short".to_string()));
    assert_eq!(
        message.properties.correlation_data,
        Some(Bytes::from("short"))
    );
}

#[test]
fn process_command_times_out() {
    let mut executor = create_executor();
    // The application did not respond in time
    let (_, arguments) = delivered(receive(&executor, &create_request(), 100));
    let outcome: ApplicationOutcome<MockPayload> = ApplicationOutcome::TimedOut;
    let processed = executor.process_command(arguments, outcome, &|| None, &|| at(110));
    // It responded, but no time is left
    let (_, arguments) = delivered(receive(&executor, &create_request(), 100));
    let outcome = ApplicationOutcome::Responded(response(b"late", Vec::new()));
    let late = executor.process_command(arguments, outcome, &|| None, &|| at(130));
    for processed in [processed, late] {
        match processed {
            Processed::TimedOut(e) => {
                assert_eq!(e.kind, AIOProtocolErrorKind::Timeout);
                assert!(!e.is_shallow);
                assert!(!e.is_remote);
                assert_eq!(e.timeout_name, Some("test_command_name".to_string()));
                assert_eq!(e.timeout_value, Some(Duration::from_secs(30)));
                assert_eq!(e.command_name, Some("test_command_name".to_string()));
            }
            other => panic!("Expected a timeout, got {other:?}"),
        }
    }
    // Nothing was cached
    delivered(receive(&executor, &create_request(), 100));
}

#[test]
fn process_command_without_expiration_time() {
    let mut executor = create_executor();
    let mut arguments = ResponseArguments::initial("name", "topic".to_string(), at(1), Some(5));
    arguments.command_expiration_time = None;
    // What the application says is not heard
    let outcome = ApplicationOutcome::Responded(response(b"x", Vec::new()));
    let message =
        published(executor.process_command(arguments, outcome, &|| None, &|| at(9)));
    assert!(message.payload.is_empty());
    assert_eq!(message.properties.message_expiry_interval, Some(10));
}

#[test]
fn process_command_interval_too_long() {
    let mut executor = create_executor();
    let mut arguments = ResponseArguments::initial("name", "topic".to_string(), at(0), Some(5));
    arguments.command_expiration_time = Some(at(u32::MAX as u64 + 1));
    let outcome: ApplicationOutcome<MockPayload> = ApplicationOutcome::NotAsked;
    let processed = executor.process_command(arguments, outcome, &|| None, &|| at(0));
    assert_eq!(processed, Processed::IntervalTooLong);
}

#[test]
fn duplicate_request_is_answered_from_cache() {
    let mut executor = create_executor();
    let publish = create_request();
    let (_, arguments) = delivered(receive(&executor, &publish, 100));
    let outcome = ApplicationOutcome::Responded(response(b"done", vec![pair("mine", "1")]));
    let first = published(executor.process_command(
        arguments,
        outcome,
        &|| Some("first".to_string()),
        &|| at(105),
    ));
    assert_eq!(first.properties.message_expiry_interval, Some(25));

    // The duplicate is not handed to the application
    let arguments = answered(receive(&executor, &publish, 110));
    assert!(matches!(
        arguments.cached_entry_status,
        CacheEntryStatus::Cached(_)
    ));
    let outcome: ApplicationOutcome<MockPayload> = ApplicationOutcome::NotAsked;
    let second = published(executor.process_command(
        arguments,
        outcome,
        &|| panic!("the clock is not asked for a cached response"),
        &|| at(112),
    ));
    // The command of the duplicate expires at 140
    assert_eq!(second.properties.message_expiry_interval, Some(28));
    assert_eq!(second.payload, first.payload);
    assert_eq!(second.topic, first.topic);
    assert_eq!(
        second.properties.user_properties,
        first.properties.user_properties
    );

    // After the response has expired the duplicate is not answered
    assert!(matches!(
        receive(&executor, &publish, 131),
        Reception::Discarded
    ));

    // Another request is handed to the application
    let mut other = create_request();
    properties_of(&mut other).correlation_data = Some(Bytes::from(vec![8u8; 16]));
    delivered(receive(&executor, &other, 110));
}

#[test]
fn error_responses_are_cached_too() {
    let mut executor = create_executor();
    let mut publish = create_request();
    publish.payload = Bytes::from("bad");
    let arguments = answered(receive(&executor, &publish, 100));
    let outcome: ApplicationOutcome<MockPayload> = ApplicationOutcome::NotAsked;
    published(executor.process_command(arguments, outcome, &|| None, &|| at(100)));
    let arguments = answered(receive(&executor, &publish, 101));
    assert!(matches!(
        arguments.cached_entry_status,
        CacheEntryStatus::Cached(_)
    ));
}

#[test]
fn publish_completion_results() {
    assert_eq!(publish_completion(ClientOutcome::Acked, "name"), Ok(()));
    let e = publish_completion(ClientOutcome::AckFailed("rc".to_string()), "name").unwrap_err();
    assert_eq!(e.kind, AIOProtocolErrorKind::ClientError);
    assert_eq!(
        e.message,
        Some("MQTT error on command executor response puback".to_string())
    );
    assert_eq!(e.nested_error, Some("rc".to_string()));
    let e = publish_completion(ClientOutcome::NotSent("x".to_string()), "name").unwrap_err();
    assert_eq!(e.kind, AIOProtocolErrorKind::InternalLogicError);
    assert!(!e.is_shallow);
    assert_eq!(e.property_name, Some("response_publish".to_string()));
    assert_eq!(e.message, Some("Error publishing response".to_string()));
    assert_eq!(e.command_name, Some("name".to_string()));
}

#[test]
fn request_completion() {
    let executor = create_executor();
    let (request, _) = delivered(receive(&executor, &create_request(), 1));
    assert_eq!(request.complete(Some(Ok(()))), Ok(()));
    let (request, _) = delivered(receive(&executor, &create_request(), 1));
    let e = request.complete(None).unwrap_err();
    assert_eq!(e.kind, AIOProtocolErrorKind::Cancellation);
    assert!(!e.is_remote);
    assert_eq!(
        e.message,
        Some(
            "Command Executor has been shutdown and can no longer respond to commands".to_string()
        )
    );
    assert_eq!(e.command_name, Some("test_command_name".to_string()));
    let (request, _) = delivered(receive(&executor, &create_request(), 1));
    let told = publish_completion(ClientOutcome::NotSent("x".to_string()), "n");
    assert!(request.complete(Some(told)).is_err());
}

#[test]
fn delivery_depends_on_the_end_time() {
    let executor = create_executor();
    // The command has not expired yet at 130
    for (secs, nanos, is_delivered) in [(100, 0, true), (130, 0, true), (130, 1, false)] {
        let now = Instant::at(Duration::new(secs, nanos));
        let (request, arguments) = delivered(receive(&executor, &create_request(), 100));
        match deliver(request, arguments, now) {
            Reception::Delivered(request, arguments) => {
                assert!(is_delivered);
                assert_eq!(request.command_name, "test_command_name");
                assert_eq!(arguments.command_expiration_time, Some(at(130)));
            }
            Reception::Discarded => assert!(!is_delivered),
            other => panic!("Unexpected {other:?}"),
        }
        let (_, arguments) = delivered(receive(&executor, &create_request(), 100));
        let settled: Reception<MockPayload> = settle(arguments, now);
        assert_eq!(matches!(settled, Reception::Answered(_)), is_delivered);
    }
}
