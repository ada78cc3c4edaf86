use std::cell::RefCell;
use std::rc::Rc;

use azure_iot_operations::control_packet::{
    Publish, PublishProperties, QoS, SubscribeProperties, UnsubscribeProperties,
};
use azure_iot_operations::interface_mocks::{MockClient, MockClientCall};
use bytes::Bytes;

fn subscribe_properties() -> SubscribeProperties {
    SubscribeProperties {
        subscription_identifier: None,
        user_properties: vec![("sub2key".to_string(), "sub2value".to_string())],
    }
}

fn unsubscribe_properties() -> UnsubscribeProperties {
    UnsubscribeProperties {
        user_properties: vec![("unsub2key".to_string(), "unsub2value".to_string())],
    }
}

fn expect_publish(
    call: &MockClientCall,
    topic: &str,
    payload: &str,
    properties: Option<PublishProperties>,
) {
    match call {
        MockClientCall::Publish(call) => {
            assert_eq!(call.topic, topic);
            assert_eq!(call.qos, QoS::AtLeastOnce);
            assert!(!call.retain);
            assert_eq!(call.payload, Bytes::from(payload.to_string()));
            assert_eq!(call.properties, properties);
        }
        _ => panic!("Expected Publish call"),
    }
}

fn expect_subscribe(call: &MockClientCall, topic: &str, properties: Option<SubscribeProperties>) {
    match call {
        MockClientCall::Subscribe(call) => {
            assert_eq!(call.topic, topic);
            assert_eq!(call.qos, QoS::AtLeastOnce);
            assert_eq!(call.properties, properties);
        }
        _ => panic!("Expected Subscribe call"),
    }
}

fn expect_unsubscribe(
    call: &MockClientCall,
    topic: &str,
    properties: Option<UnsubscribeProperties>,
) {
    match call {
        MockClientCall::Unsubscribe(call) => {
            assert_eq!(call.topic, topic);
            assert_eq!(call.properties, properties);
        }
        _ => panic!("Expected Unsubscribe call"),
    }
}

fn expect_ack(call: &MockClientCall, publish: &Publish) {
    match call {
        MockClientCall::Ack(call) => {
            assert_eq!(&call.publish, publish);
        }
        _ => panic!("Expected Ack call"),
    }
}

fn expect_reset(client: &mut MockClient) {
    let controller = client.mock_controller();
    controller.reset_mock();

    // Call counts and sequence should be reset
    assert_eq!(controller.call_sequence().len(), 0);
    assert_eq!(controller.publish_count(), 0);
    assert_eq!(controller.subscribe_count(), 0);
    assert_eq!(controller.unsubscribe_count(), 0);
    assert_eq!(controller.ack_count(), 0);
}

#[test]
fn mock_client_call_tracking_single_client() {
    let mut client = MockClient::new();
    let ack_publish = Publish::new(
        "recv/msg/topic",
        QoS::AtLeastOnce,
        Bytes::from("msg_payload"),
        None,
    );

    // Make the calls to the mock
    client
        .publish(
            "test/publish/topic/1".to_string(),
            QoS::AtLeastOnce,
            false,
            Bytes::from("payload 1"),
        )
        .unwrap();
    client
        .subscribe("test/subscribe/topic/1".to_string(), QoS::AtLeastOnce)
        .unwrap();
    client
        .unsubscribe("test/unsubscribe/topic/1".to_string())
        .unwrap();
    client
        .publish_with_properties(
            "test/publish/topic/2".to_string(),
            QoS::AtLeastOnce,
            false,
            Bytes::from("payload 2"),
            PublishProperties::default(),
        )
        .unwrap();
    client
        .subscribe_with_properties(
            "test/subscribe/topic/2".to_string(),
            QoS::AtLeastOnce,
            subscribe_properties(),
        )
        .unwrap();
    client
        .unsubscribe_with_properties(
            "test/unsubscribe/topic/2".to_string(),
            unsubscribe_properties(),
        )
        .unwrap();
    client.ack(&ack_publish).unwrap();
    client.disconnect().unwrap();
    client.reauth().unwrap();

    // Assert call sequence is as expected
    let calls = client.mock_controller().call_sequence();
    assert_eq!(calls.len(), 7);
    expect_publish(&calls[0], "test/publish/topic/1", "payload 1", None);
    expect_subscribe(&calls[1], "test/subscribe/topic/1", None);
    expect_unsubscribe(&calls[2], "test/unsubscribe/topic/1", None);
    expect_publish(
        &calls[3],
        "test/publish/topic/2",
        "payload 2",
        Some(PublishProperties::default()),
    );
    expect_subscribe(&calls[4], "test/subscribe/topic/2", Some(subscribe_properties()));
    expect_unsubscribe(
        &calls[5],
        "test/unsubscribe/topic/2",
        Some(unsubscribe_properties()),
    );
    expect_ack(&calls[6], &ack_publish);

    // Assert call counts are as expected
    assert_eq!(client.mock_controller().publish_count(), 2);
    assert_eq!(client.mock_controller().subscribe_count(), 2);
    assert_eq!(client.mock_controller().unsubscribe_count(), 2);
    assert_eq!(client.mock_controller().ack_count(), 1);

    // Reset the mock
    expect_reset(&mut client);
}

#[test]
fn mock_client_call_tracking_multiple_clients() {
    let client1 = Rc::new(RefCell::new(MockClient::new()));
    let client2 = client1.clone();
    let ack_publish1 = Publish::new(
        "recv/msg/topic",
        QoS::AtLeastOnce,
        Bytes::from("msg_payload"),
        None,
    );
    let ack_publish2 = Publish::new(
        "recv/msg/topic",
        QoS::AtLeastOnce,
        Bytes::from("msg_payload2"),
        None,
    );

    // The calls of the two clients alternate
    client1
        .borrow_mut()
        .publish(
            "test/publish/topic/1".to_string(),
            QoS::AtLeastOnce,
            false,
            Bytes::from("payload 1"),
        )
        .unwrap();
    client2
        .borrow_mut()
        .publish_with_properties(
            "test/publish/topic/2".to_string(),
            QoS::AtLeastOnce,
            false,
            Bytes::from("payload 2"),
            PublishProperties::default(),
        )
        .unwrap();
    client1
        .borrow_mut()
        .subscribe("test/subscribe/topic/1".to_string(), QoS::AtLeastOnce)
        .unwrap();
    client2
        .borrow_mut()
        .subscribe_with_properties(
            "test/subscribe/topic/2".to_string(),
            QoS::AtLeastOnce,
            subscribe_properties(),
        )
        .unwrap();
    client1
        .borrow_mut()
        .unsubscribe("test/unsubscribe/topic/1".to_string())
        .unwrap();
    client2
        .borrow_mut()
        .unsubscribe_with_properties(
            "test/unsubscribe/topic/2".to_string(),
            unsubscribe_properties(),
        )
        .unwrap();
    client1.borrow_mut().ack(&ack_publish1).unwrap();
    client2.borrow_mut().ack(&ack_publish2).unwrap();

    // Assert call sequence is as expected
    let mut client = client1.borrow_mut();
    let calls = client.mock_controller().call_sequence();
    assert_eq!(calls.len(), 8);
    expect_publish(&calls[0], "test/publish/topic/1", "payload 1", None);
    expect_publish(
        &calls[1],
        "test/publish/topic/2",
        "payload 2",
        Some(PublishProperties::default()),
    );
    expect_subscribe(&calls[2], "test/subscribe/topic/1", None);
    expect_subscribe(&calls[3], "test/subscribe/topic/2", Some(subscribe_properties()));
    expect_unsubscribe(&calls[4], "test/unsubscribe/topic/1", None);
    expect_unsubscribe(
        &calls[5],
        "test/unsubscribe/topic/2",
        Some(unsubscribe_properties()),
    );
    expect_ack(&calls[6], &ack_publish1);
    expect_ack(&calls[7], &ack_publish2);

    // Assert call counts are as expected
    let controller = client.mock_controller();
    assert_eq!(controller.publish_count(), 2);
    assert_eq!(controller.subscribe_count(), 2);
    assert_eq!(controller.unsubscribe_count(), 2);
    assert_eq!(controller.ack_count(), 2);
    assert_eq!(
        controller.publish_count()
            + controller.subscribe_count()
            + controller.unsubscribe_count()
            + controller.ack_count(),
        controller.call_sequence().len()
    );

    // Reset the mock
    expect_reset(&mut client);
}
