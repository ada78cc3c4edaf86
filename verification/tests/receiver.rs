use std::str::FromStr;

use azure_iot_operations::control_packet::{Publish, QoS};
use azure_iot_operations::interface_mocks::{MockClient, MockClientCall};
use azure_iot_operations::session::receiver::ordered_acker::{AckTurn, PkidError};
use azure_iot_operations::session::receiver::{
    AckToken, DispatchError, IncomingPublishDispatcher, InvalidPublish, PublishReceiverManager,
    PublishRx,
};
use azure_iot_operations::topic::{TopicFilter, TopicName, TopicParseError};
use bytes::Bytes;
use tokio::sync::mpsc::error::TryRecvError;

const ALL_QOS: [QoS; 3] = [QoS::AtMostOnce, QoS::AtLeastOnce, QoS::ExactlyOnce];
const ACKED_QOS: [QoS; 2] = [QoS::AtLeastOnce, QoS::ExactlyOnce];

fn create_publish(topic_name: &TopicName, payload: &str, pkid: u16) -> Publish {
    create_publish_qos(topic_name, payload, pkid, QoS::AtLeastOnce)
}

fn create_publish_qos(topic_name: &TopicName, payload: &str, pkid: u16, qos: QoS) -> Publish {
    // NOTE: If QoS is 0, this WILL OVERRIDE THE PKID (since pkid 0 for QoS 0)
    let mut publish = Publish::new(
        topic_name.as_str(),
        qos,
        Bytes::from(payload.to_string()),
        None,
    );
    if qos != QoS::AtMostOnce {
        publish.pkid = pkid;
    }
    publish
}

fn assert_expected_recv_value(
    recv_value: &(Publish, Option<AckToken>),
    expected_publish: &Publish,
) {
    let (publish, ack_token) = recv_value;
    // Received publish is expected publish
    assert_eq!(publish, expected_publish);
    // Ack token is present if QoS is not 0
    if publish.qos == QoS::AtMostOnce {
        assert!(ack_token.is_none());
    } else {
        assert!(ack_token.is_some());
        assert_eq!(ack_token.as_ref().unwrap().pkid(), publish.pkid);
    }
}

/// A dispatcher, with a client that sends the acks that the dispatcher decides on.
struct Fixture {
    dispatcher: IncomingPublishDispatcher,
    client: MockClient,
    waiting: Vec<Publish>,
}

impl Fixture {
    fn new() -> Self {
        Fixture {
            dispatcher: IncomingPublishDispatcher::new(),
            client: MockClient::new(),
            waiting: Vec::new(),
        }
    }

    fn manager(&mut self) -> &mut PublishReceiverManager {
        self.dispatcher.get_receiver_manager()
    }

    fn dispatch(&mut self, publish: &Publish) -> Result<usize, DispatchError> {
        let r = self.dispatcher.dispatch_publish(publish);
        self.send_acks();
        r
    }

    /// A receiver acks its token, or drops it.
    fn ack(&mut self, token: Option<AckToken>) {
        self.dispatcher.release(token.unwrap());
        self.send_acks();
    }

    /// A receiver is dropped, and with it the tokens of the publishes it did not receive.
    fn drop_receiver(&mut self, mut rx: PublishRx) {
        rx.close();
        while let Ok((_, token)) = rx.try_recv() {
            if let Some(token) = token {
                self.dispatcher.release(token);
            }
        }
        self.send_acks();
    }

    fn send_acks(&mut self) {
        while let Some((publish, turn)) = self.dispatcher.request_next_ack() {
            match turn {
                AckTurn::Now => self.client.ack(&publish).unwrap(),
                AckTurn::Wait => self.waiting.push(publish),
                AckTurn::NotNeeded => panic!("publishes without acks are never ready"),
            }
        }
        let mut i = 0;
        while i < self.waiting.len() {
            if self.dispatcher.ask_again(self.waiting[i].pkid) {
                let publish = self.waiting.remove(i);
                self.client.ack(&publish).unwrap();
                i = 0;
            } else {
                i += 1;
            }
        }
    }

    fn ack_count(&mut self) -> usize {
        self.client.mock_controller().ack_count()
    }

    fn acked(&mut self) -> Vec<Publish> {
        let mut publishes = Vec::new();
        for call in self.client.mock_controller().call_sequence() {
            match call {
                MockClientCall::Ack(call) => publishes.push(call.publish),
                _ => panic!("Expected AcknowledgePublish"),
            }
        }
        publishes
    }

    /// The number of different topic filters that receivers are registered for.
    fn filter_count(&mut self) -> usize {
        let mut filters: Vec<String> = self
            .manager()
            .filtered_txs
            .iter()
            .map(|e| e.topic_filter.as_str().to_string())
            .collect();
        filters.sort();
        filters.dedup();
        filters.len()
    }

    /// The number of receivers that are registered for a topic filter.
    fn count_for(&mut self, filter: &TopicFilter) -> usize {
        self.manager()
            .filtered_txs
            .iter()
            .filter(|e| e.topic_filter.as_str() == filter.as_str())
            .count()
    }

    /// Whether all receivers that are registered for a topic filter are open.
    fn all_open_for(&mut self, filter: &TopicFilter) -> bool {
        self.manager()
            .filtered_txs
            .iter()
            .filter(|e| e.topic_filter.as_str() == filter.as_str())
            .all(|e| !e.tx.is_closed())
    }
}

#[test]
fn dispatch_no_receivers() {
    for qos in ALL_QOS {
        let mut f = Fixture::new();

        // Dispatch without creating any receivers
        let topic_name = TopicName::from_str("sport/tennis/player1").unwrap();
        let publish = create_publish_qos(&topic_name, "publish 1", 1, qos);

        // Was sent to 0 receivers
        assert_eq!(f.dispatch(&publish).unwrap(), 0);
    }
}

#[test]
fn dispatch_one_unfiltered_receiver() {
    for qos in ALL_QOS {
        let mut f = Fixture::new();

        // Create an unfiltered receiver only (no filtered)
        let mut unfiltered_rx = f.manager().create_unfiltered_receiver();

        // Dispatched publish is received by the unfiltered receiver
        let topic_name = TopicName::from_str("sport/tennis/player1").unwrap();
        let publish = create_publish_qos(&topic_name, "publish 1", 1, qos);
        assert_eq!(f.dispatch(&publish).unwrap(), 1);
        assert_expected_recv_value(&unfiltered_rx.try_recv().unwrap(), &publish);
    }
}

#[test]
fn dispatch_multiple_unfiltered_receivers() {
    for qos in ALL_QOS {
        let mut f = Fixture::new();

        // Create multiple unfiltered receivers (no filtered)
        let mut unfiltered_rx1 = f.manager().create_unfiltered_receiver();
        let mut unfiltered_rx2 = f.manager().create_unfiltered_receiver();
        let mut unfiltered_rx3 = f.manager().create_unfiltered_receiver();

        // Dispatched publish is received by all unfiltered receivers
        let topic_name = TopicName::from_str("sport/tennis/player1").unwrap();
        let publish = create_publish_qos(&topic_name, "payload", 1, qos);
        assert_eq!(f.dispatch(&publish).unwrap(), 3);
        assert_expected_recv_value(&unfiltered_rx1.try_recv().unwrap(), &publish);
        assert_expected_recv_value(&unfiltered_rx2.try_recv().unwrap(), &publish);
        assert_expected_recv_value(&unfiltered_rx3.try_recv().unwrap(), &publish);
    }
}

#[test]
fn dispatch_matching_filtered_receiver_supercedes_unfiltered_receiver() {
    for qos in ALL_QOS {
        let mut f = Fixture::new();
        let topic_name = TopicName::from_str("sport/tennis/player1").unwrap();

        // Create an unfiltered receiver
        let mut unfiltered_rx = f.manager().create_unfiltered_receiver();

        // Dispatched publish is received by the unfiltered_receiver
        let publish1 = create_publish_qos(&topic_name, "publish 1", 1, qos);
        assert_eq!(f.dispatch(&publish1).unwrap(), 1);
        assert_expected_recv_value(&unfiltered_rx.try_recv().unwrap(), &publish1);

        // Create a filtered receiver that does NOT match the topic name
        let topic_filter1 = TopicFilter::from_str("finance/bonds/banker1").unwrap();
        assert!(!topic_filter1.matches_topic_name(&topic_name));
        let mut filtered_rx1 = f.manager().create_filtered_receiver(&topic_filter1);

        // Dispatching a publish to the same topic is still only received by the unfiltered receiver
        let publish2 = create_publish_qos(&topic_name, "publish 2", 2, qos);
        assert_eq!(f.dispatch(&publish2).unwrap(), 1);
        assert_expected_recv_value(&unfiltered_rx.try_recv().unwrap(), &publish2);
        assert_eq!(filtered_rx1.try_recv().unwrap_err(), TryRecvError::Empty);

        // Create a filtered receiver that DOES match the topic name
        let topic_filter2 = TopicFilter::from_str("sport/tennis/player1").unwrap();
        assert!(topic_filter2.matches_topic_name(&topic_name));
        let mut filtered_rx2 = f.manager().create_filtered_receiver(&topic_filter2);

        // Dispatching a publish to the same topic is now received by the matching filtered receiver
        // ONLY
        let publish3 = create_publish_qos(&topic_name, "publish 3", 3, qos);
        assert_eq!(f.dispatch(&publish3).unwrap(), 1);
        assert_eq!(unfiltered_rx.try_recv().unwrap_err(), TryRecvError::Empty);
        assert_eq!(filtered_rx1.try_recv().unwrap_err(), TryRecvError::Empty);
        assert_expected_recv_value(&filtered_rx2.try_recv().unwrap(), &publish3);

        // Drop the matching filtered receiver
        drop(filtered_rx2);

        // Dispatching a publish to the same topic is now received by the unfiltered receiver once
        // again
        let publish4 = create_publish_qos(&topic_name, "publish 4", 4, qos);
        assert_eq!(f.dispatch(&publish4).unwrap(), 1);
        assert_expected_recv_value(&unfiltered_rx.try_recv().unwrap(), &publish4);
        assert_eq!(filtered_rx1.try_recv().unwrap_err(), TryRecvError::Empty);
    }
}

#[test]
fn dispatch_no_matching_filtered_receivers() {
    for qos in ALL_QOS {
        let mut f = Fixture::new();
        let topic_name = TopicName::from_str("sport/tennis/player1").unwrap();

        // Create a receiver that does not match the topic name
        let topic_filter = TopicFilter::from_str("finance/bonds/banker1").unwrap();
        assert!(!topic_filter.matches_topic_name(&topic_name));
        let mut filtered_rx = f.manager().create_filtered_receiver(&topic_filter);

        // Dispatched publish is not received
        let publish = create_publish_qos(&topic_name, "publish 1", 1, qos);
        assert_eq!(f.dispatch(&publish).unwrap(), 0);
        assert_eq!(filtered_rx.try_recv().unwrap_err(), TryRecvError::Empty);
    }
}

#[test]
fn dispatch_one_matching_filter_exact() {
    for qos in ALL_QOS {
        let mut f = Fixture::new();
        let topic_name = TopicName::from_str("sport/tennis/player1").unwrap();

        // Create a receiver that matches the topic name exactly (no wildcard)
        let topic_filter = TopicFilter::from_str("sport/tennis/player1").unwrap();
        assert!(topic_filter.matches_topic_name(&topic_name));
        let mut filtered_rx1 = f.manager().create_filtered_receiver(&topic_filter);

        // Create a filter that does not match the topic name
        let topic_filter2 = TopicFilter::from_str("sport/tennis/player2").unwrap();
        assert!(!topic_filter2.matches_topic_name(&topic_name));
        let mut filtered_rx2 = f.manager().create_filtered_receiver(&topic_filter2);

        // Dispatched publish is received by only the matching filtered receiver
        let publish = create_publish_qos(&topic_name, "publish 1", 1, qos);
        assert_eq!(f.dispatch(&publish).unwrap(), 1);
        assert_expected_recv_value(&filtered_rx1.try_recv().unwrap(), &publish);
        assert_eq!(filtered_rx2.try_recv().unwrap_err(), TryRecvError::Empty);
    }
}

#[test]
fn dispatch_one_matching_filter_wildcard() {
    for qos in ALL_QOS {
        let mut f = Fixture::new();
        let topic_name = TopicName::from_str("sport/tennis/player1").unwrap();

        // Create a receiver that matches the topic name with a wildcard
        let topic_filter = TopicFilter::from_str("sport/+/player1").unwrap();
        assert!(topic_filter.matches_topic_name(&topic_name));
        let mut filtered_rx1 = f.manager().create_filtered_receiver(&topic_filter);

        // Create a receiver that does not match topic name
        let topic_filter2 = TopicFilter::from_str("finance/#").unwrap();
        assert!(!topic_filter2.matches_topic_name(&topic_name));
        let mut filtered_rx2 = f.manager().create_filtered_receiver(&topic_filter2);

        // Dispatched publish is received by only the matching filtered receiver
        let publish = create_publish_qos(&topic_name, "publish 1", 1, qos);
        assert_eq!(f.dispatch(&publish).unwrap(), 1);
        assert_expected_recv_value(&filtered_rx1.try_recv().unwrap(), &publish);
        assert_eq!(filtered_rx2.try_recv().unwrap_err(), TryRecvError::Empty);
    }
}

#[test]
fn dispatch_multiple_matching_filters_overlapping() {
    for qos in ALL_QOS {
        let mut f = Fixture::new();
        let topic_name = TopicName::from_str("sport/tennis/player1").unwrap();

        // Create a receiver that matches the topic name with a wildcard
        let topic_filter1 = TopicFilter::from_str("sport/+/player1").unwrap();
        assert!(topic_filter1.matches_topic_name(&topic_name));
        let mut filtered_rx1 = f.manager().create_filtered_receiver(&topic_filter1);

        // Create a receiver that matches the topic name with a wildcard
        let topic_filter2 = TopicFilter::from_str("sport/tennis/#").unwrap();
        assert!(topic_filter2.matches_topic_name(&topic_name));
        let mut filtered_rx2 = f.manager().create_filtered_receiver(&topic_filter2);

        // Create a receiver that does not match the topic name
        let topic_filter3 = TopicFilter::from_str("finance/#").unwrap();
        assert!(!topic_filter3.matches_topic_name(&topic_name));
        let mut filtered_rx3 = f.manager().create_filtered_receiver(&topic_filter3);

        // Dispatched publish is received by all matching filtered receivers
        let publish = create_publish_qos(&topic_name, "publish 1", 1, qos);
        assert_eq!(f.dispatch(&publish).unwrap(), 2);
        assert_expected_recv_value(&filtered_rx1.try_recv().unwrap(), &publish);
        assert_expected_recv_value(&filtered_rx2.try_recv().unwrap(), &publish);
        assert_eq!(filtered_rx3.try_recv().unwrap_err(), TryRecvError::Empty);
    }
}

#[test]
fn dispatch_multiple_matching_filters_duplicate() {
    for qos in ALL_QOS {
        let mut f = Fixture::new();
        let topic_name = TopicName::from_str("sport/tennis/player1").unwrap();

        // Topic name matches multiple duplicate exact and wildcard filters
        let topic_filter1 = TopicFilter::from_str("sport/tennis/player1").unwrap(); // Exact match
        let topic_filter2 = TopicFilter::from_str("sport/tennis/player1").unwrap(); // Exact match duplicate
        let topic_filter3 = TopicFilter::from_str("sport/+/player1").unwrap(); // Wildcard match
        let topic_filter4 = TopicFilter::from_str("sport/+/player1").unwrap(); // Wildcard match duplicate
        assert!(topic_name.matches_topic_filter(&topic_filter1));
        assert!(topic_name.matches_topic_filter(&topic_filter2));
        assert!(topic_name.matches_topic_filter(&topic_filter3));
        assert!(topic_name.matches_topic_filter(&topic_filter4));

        // Topic name does not match other duplicate filters
        let topic_filter5 = TopicFilter::from_str("finance/bonds/banker1").unwrap();
        let topic_filter6 = TopicFilter::from_str("finance/bonds/banker1").unwrap();
        let topic_filter7 = TopicFilter::from_str("sport/hockey/+").unwrap();
        let topic_filter8 = TopicFilter::from_str("sport/hockey/+").unwrap();
        assert!(!topic_name.matches_topic_filter(&topic_filter5));
        assert!(!topic_name.matches_topic_filter(&topic_filter6));
        assert!(!topic_name.matches_topic_filter(&topic_filter7));
        assert!(!topic_name.matches_topic_filter(&topic_filter8));

        // Register the filters
        let mut filtered_rx1 = f.manager().create_filtered_receiver(&topic_filter1);
        let mut filtered_rx2 = f.manager().create_filtered_receiver(&topic_filter2);
        let mut filtered_rx3 = f.manager().create_filtered_receiver(&topic_filter3);
        let mut filtered_rx4 = f.manager().create_filtered_receiver(&topic_filter4);
        let mut filtered_rx5 = f.manager().create_filtered_receiver(&topic_filter5);
        let mut filtered_rx6 = f.manager().create_filtered_receiver(&topic_filter6);
        let mut filtered_rx7 = f.manager().create_filtered_receiver(&topic_filter7);
        let mut filtered_rx8 = f.manager().create_filtered_receiver(&topic_filter8);

        // Dispatched publish goes to the matching filtered receivers only
        let publish = create_publish_qos(&topic_name, "payload 1", 1, qos);
        assert_eq!(f.dispatch(&publish).unwrap(), 4);
        assert_expected_recv_value(&filtered_rx1.try_recv().unwrap(), &publish);
        assert_expected_recv_value(&filtered_rx2.try_recv().unwrap(), &publish);
        assert_expected_recv_value(&filtered_rx3.try_recv().unwrap(), &publish);
        assert_expected_recv_value(&filtered_rx4.try_recv().unwrap(), &publish);
        assert_eq!(filtered_rx5.try_recv().unwrap_err(), TryRecvError::Empty);
        assert_eq!(filtered_rx6.try_recv().unwrap_err(), TryRecvError::Empty);
        assert_eq!(filtered_rx7.try_recv().unwrap_err(), TryRecvError::Empty);
        assert_eq!(filtered_rx8.try_recv().unwrap_err(), TryRecvError::Empty);
    }
}

#[test]
fn dispatch_duplicate_pkid_error() {
    for qos in ACKED_QOS {
        let mut f = Fixture::new();

        // Create an unfiltered receiver
        let mut unfiltered_rx = f.manager().create_unfiltered_receiver();

        // Dispatch a publish with a PKID
        let topic_name = TopicName::from_str("sport/tennis/player1").unwrap();
        let publish1 = create_publish_qos(&topic_name, "publish 1", 1, qos);
        assert_eq!(f.dispatch(&publish1).unwrap(), 1);

        // Publish is received, but do not ack yet
        let (r_publish1, ack_token1) = unfiltered_rx.try_recv().unwrap();
        assert_eq!(r_publish1, publish1);

        // Dispatch a publish with the same PKID and get an error
        let publish2 = create_publish_qos(&topic_name, "publish 2", 1, qos);
        assert!(matches!(
            f.dispatch(&publish2).unwrap_err(),
            DispatchError::InvalidPublishPkid(_)
        ));

        // No acks on the mock client have occurred
        assert_eq!(f.ack_count(), 0);

        // Complete the ack token for the first publish
        f.ack(ack_token1);

        // The first publish is acked
        assert_eq!(f.ack_count(), 1);

        // Dispatching the second publish again can now succeed
        assert_eq!(f.dispatch(&publish2).unwrap(), 1);

        // Second publish can now be received
        let (r_publish2, ack_token2) = unfiltered_rx.try_recv().unwrap();
        assert_eq!(r_publish2, publish2);

        // And it can be acked
        f.ack(ack_token2);

        // Resulting in a second ack
        assert_eq!(f.ack_count(), 2);
    }
}

#[test]
fn dispatch_invalid_topic_name_error() {
    for qos in ALL_QOS {
        let mut f = Fixture::new();

        // Create an unfiltered receiver
        let unfiltered_rx = f.manager().create_unfiltered_receiver();

        // Dispatch a publish with an invalid topic name
        let invalid_topic_name = "";
        assert!(!TopicName::is_valid_topic_name(invalid_topic_name));
        let publish = Publish::new(
            invalid_topic_name,
            qos,
            Bytes::from("some payload".to_string()),
            None,
        );
        assert!(matches!(
            f.dispatch(&publish).unwrap_err(),
            DispatchError::InvalidPublishTopic(_)
        ));

        // No acks occurred
        assert_eq!(f.ack_count(), 0);

        drop(unfiltered_rx);
    }
}

#[test]
fn create_and_drop_receivers() {
    let mut f = Fixture::new();
    let topic_name = TopicName::from_str("sport/tennis/player1").unwrap();
    let topic_filter = TopicFilter::from_str("sport/tennis/player1").unwrap();
    assert!(topic_filter.matches_topic_name(&topic_name));

    // Dispatching publish with no receivers is dispatched 0 times
    let publish1 = create_publish(&topic_name, "publish 1", 1);
    assert_eq!(f.dispatch(&publish1).unwrap(), 0);

    // Create an unfiltered receiver
    let mut unfiltered_rx1 = f.manager().create_unfiltered_receiver();

    // Dispatching a publish now goes to the newly created unfiltered receiver
    let publish2 = create_publish(&topic_name, "publish 2", 2);
    assert_eq!(f.dispatch(&publish2).unwrap(), 1);
    assert_expected_recv_value(&unfiltered_rx1.try_recv().unwrap(), &publish2);

    // Create another unfiltered receiver
    let mut unfiltered_rx2 = f.manager().create_unfiltered_receiver();

    // Dispatching a publish now goes to both unfiltered receivers
    let publish3 = create_publish(&topic_name, "publish 3", 3);
    assert_eq!(f.dispatch(&publish3).unwrap(), 2);
    assert_expected_recv_value(&unfiltered_rx1.try_recv().unwrap(), &publish3);
    assert_expected_recv_value(&unfiltered_rx2.try_recv().unwrap(), &publish3);

    // Create a filtered receiver
    let mut filtered_rx1 = f.manager().create_filtered_receiver(&topic_filter);

    // Dispatching a publish now goes only to the newly created filtered receiver
    let publish4 = create_publish(&topic_name, "publish 4", 4);
    assert_eq!(f.dispatch(&publish4).unwrap(), 1);
    assert_expected_recv_value(&filtered_rx1.try_recv().unwrap(), &publish4);
    assert_eq!(unfiltered_rx1.try_recv().unwrap_err(), TryRecvError::Empty);
    assert_eq!(unfiltered_rx2.try_recv().unwrap_err(), TryRecvError::Empty);

    // Create another filtered receiver for the same topic
    let mut filtered_rx2 = f.manager().create_filtered_receiver(&topic_filter);

    // Dispatching a publish now goes only to both filtered receivers
    let publish5 = create_publish(&topic_name, "publish 5", 5);
    assert_eq!(f.dispatch(&publish5).unwrap(), 2);
    assert_expected_recv_value(&filtered_rx1.try_recv().unwrap(), &publish5);
    assert_expected_recv_value(&filtered_rx2.try_recv().unwrap(), &publish5);
    assert_eq!(unfiltered_rx1.try_recv().unwrap_err(), TryRecvError::Empty);
    assert_eq!(unfiltered_rx2.try_recv().unwrap_err(), TryRecvError::Empty);

    // Drop one of the filtered receivers
    drop(filtered_rx2);

    // Dispatching a publish now goes to only the remaining filtered receiver
    let publish6 = create_publish(&topic_name, "publish 6", 6);
    assert_eq!(f.dispatch(&publish6).unwrap(), 1);
    assert_expected_recv_value(&filtered_rx1.try_recv().unwrap(), &publish6);
    assert_eq!(unfiltered_rx1.try_recv().unwrap_err(), TryRecvError::Empty);
    assert_eq!(unfiltered_rx2.try_recv().unwrap_err(), TryRecvError::Empty);

    // Drop the remaining filtered receiver
    drop(filtered_rx1);

    // Dispatching a publish now goes to only the unfiltered receivers
    let publish7 = create_publish(&topic_name, "publish 7", 7);
    assert_eq!(f.dispatch(&publish7).unwrap(), 2);
    assert_expected_recv_value(&unfiltered_rx1.try_recv().unwrap(), &publish7);
    assert_expected_recv_value(&unfiltered_rx2.try_recv().unwrap(), &publish7);

    // Drop one of the unfiltered receivers
    drop(unfiltered_rx2);

    // Dispatching a publish now goes to only the remaining unfiltered receiver
    let publish8 = create_publish(&topic_name, "publish 8", 8);
    assert_eq!(f.dispatch(&publish8).unwrap(), 1);
    assert_expected_recv_value(&unfiltered_rx1.try_recv().unwrap(), &publish8);

    // Drop the remaining unfiltered receiver
    drop(unfiltered_rx1);

    // Dispatching a publish now goes to 0 receivers
    let publish9 = create_publish(&topic_name, "publish 9", 9);
    assert_eq!(f.dispatch(&publish9).unwrap(), 0);
}

#[test]
fn full_filtered_receiver_cleanup_on_create() {
    let mut f = Fixture::new();

    // Create several filtered receivers, including duplicates and wildcards
    let topic_filter1 = TopicFilter::from_str("sport/tennis/player1").unwrap(); // Type 1
    let topic_filter2 = topic_filter1.clone(); // Type 1
    let topic_filter3 = topic_filter1.clone(); // Type 1
    let topic_filter4 = TopicFilter::from_str("sport/+/player1").unwrap(); // Type 2
    let topic_filter5 = topic_filter4.clone(); // Type 2
    let topic_filter6 = TopicFilter::from_str("sport/#").unwrap(); // Type 3

    let filter_rx1 = f.manager().create_filtered_receiver(&topic_filter1); // Type 1
    let filter_rx2 = f.manager().create_filtered_receiver(&topic_filter2); // Type 1
    let filter_rx3 = f.manager().create_filtered_receiver(&topic_filter3); // Type 1
    let filter_rx4 = f.manager().create_filtered_receiver(&topic_filter4); // Type 2
    let filter_rx5 = f.manager().create_filtered_receiver(&topic_filter5); // Type 2
    let filter_rx6 = f.manager().create_filtered_receiver(&topic_filter6); // Type 3

    // There are three entries for the exact topic name, two for the single level wildcard, and one
    // for the multi-level wildcard
    assert_eq!(f.filter_count(), 3);
    assert_eq!(f.count_for(&topic_filter1), 3); // Type 1
    assert_eq!(f.count_for(&topic_filter4), 2); // Type 2
    assert_eq!(f.count_for(&topic_filter6), 1); // Type 3

    // Drop one of each type of receiver
    drop(filter_rx3); // Type 1
    drop(filter_rx5); // Type 2
    drop(filter_rx6); // Type 3

    // The entries are still the same after the drop
    assert_eq!(f.filter_count(), 3);
    assert_eq!(f.count_for(&topic_filter1), 3); // Type 1
    assert_eq!(f.count_for(&topic_filter4), 2); // Type 2
    assert_eq!(f.count_for(&topic_filter6), 1); // Type 3

    // Register a new filter of a different type
    let topic_filter7 = TopicFilter::from_str("finance/bonds/banker1").unwrap(); // Type 4
    let filter_rx7 = f.manager().create_filtered_receiver(&topic_filter7); // Type 4

    // The entries now hold the new filter, but all the dropped filters are removed.
    // All remaining receiver entries are still open (implying the correct one was removed).
    assert_eq!(f.filter_count(), 3);
    assert_eq!(f.count_for(&topic_filter1), 2); // Type 1
    assert!(f.all_open_for(&topic_filter1)); // Type 1
    assert_eq!(f.count_for(&topic_filter4), 1); // Type 2
    assert!(f.all_open_for(&topic_filter4)); // Type 2
    assert_eq!(f.count_for(&topic_filter6), 0); // Type 3
    assert_eq!(f.count_for(&topic_filter7), 1); // Type 4
    assert!(f.all_open_for(&topic_filter7)); // Type 4

    // Drop the remaining receivers
    drop(filter_rx1); // Type 1
    drop(filter_rx2); // Type 1
    drop(filter_rx4); // Type 2
    drop(filter_rx7); // Type 4

    // The entries are still the same
    assert_eq!(f.filter_count(), 3);
    assert_eq!(f.count_for(&topic_filter1), 2); // Type 1
    assert_eq!(f.count_for(&topic_filter4), 1); // Type 2
    assert_eq!(f.count_for(&topic_filter6), 0); // Type 3
    assert_eq!(f.count_for(&topic_filter7), 1); // Type 4

    // Register a new filter again
    let topic_filter8 = topic_filter7.clone(); // Type 4
    let filter_rx8 = f.manager().create_filtered_receiver(&topic_filter8); // Type 4

    // Once again, all the dropped filters are now removed, with only the most recently
    // registered filter remaining.
    assert_eq!(f.filter_count(), 1);
    assert_eq!(f.count_for(&topic_filter8), 1); // Type 4
    assert!(f.all_open_for(&topic_filter8)); // Type 4

    drop(filter_rx8);
}

#[test]
fn no_unfiltered_receiver_cleanup_on_create() {
    let mut f = Fixture::new();

    // Create several unfiltered receivers
    let unfiltered_rx1 = f.manager().create_unfiltered_receiver();
    let unfiltered_rx2 = f.manager().create_unfiltered_receiver();
    let unfiltered_rx3 = f.manager().create_unfiltered_receiver();

    // There are three entries for the unfiltered receivers
    assert_eq!(f.manager().unfiltered_txs.len(), 3);

    // Drop one of the receivers
    drop(unfiltered_rx2);

    // The entries are still the same after the drop
    assert_eq!(f.manager().unfiltered_txs.len(), 3);

    // Create a new unfiltered receiver
    let unfiltered_rx4 = f.manager().create_unfiltered_receiver();

    // The entries now hold the new receiver, but the dropped receiver is still there
    assert_eq!(f.manager().unfiltered_txs.len(), 4);

    // Drop the remaining receivers
    drop(unfiltered_rx1);
    drop(unfiltered_rx3);
    drop(unfiltered_rx4);
}

#[test]
fn lazy_filtered_receiver_cleanup_on_dispatch() {
    let mut f = Fixture::new();

    // Register several filters, including duplicates and wildcards
    let topic_filter1 = TopicFilter::from_str("sport/#").unwrap(); // Type 1
    let topic_filter2 = topic_filter1.clone(); // Type 1
    let topic_filter3 = topic_filter1.clone(); // Type 1
    let topic_filter4 = TopicFilter::from_str("sport/+/player1").unwrap(); // Type 2
    let topic_filter5 = topic_filter4.clone(); // Type 2
    let topic_filter6 = TopicFilter::from_str("sport/tennis/player1").unwrap(); // Type 3

    let filter_rx1 = f.manager().create_filtered_receiver(&topic_filter1); // Type 1
    let filter_rx2 = f.manager().create_filtered_receiver(&topic_filter2); // Type 1
    let filter_rx3 = f.manager().create_filtered_receiver(&topic_filter3); // Type 1
    let filter_rx4 = f.manager().create_filtered_receiver(&topic_filter4); // Type 2
    let filter_rx5 = f.manager().create_filtered_receiver(&topic_filter5); // Type 2
    let filter_rx6 = f.manager().create_filtered_receiver(&topic_filter6); // Type 3

    // There are three entries for the multi-level wildcard, two for the single level wildcard, and
    // one requiring exact match
    assert_eq!(f.filter_count(), 3);
    assert_eq!(f.count_for(&topic_filter3), 3); // Type 1
    assert_eq!(f.count_for(&topic_filter5), 2); // Type 2
    assert_eq!(f.count_for(&topic_filter6), 1); // Type 3

    // Drop one of each type of receiver
    drop(filter_rx3); // Type 1
    drop(filter_rx5); // Type 2
    drop(filter_rx6); // Type 3

    // The entries are still the same after the drop
    assert_eq!(f.filter_count(), 3);
    assert_eq!(f.count_for(&topic_filter3), 3); // Type 1
    assert_eq!(f.count_for(&topic_filter5), 2); // Type 2
    assert_eq!(f.count_for(&topic_filter6), 1); // Type 3

    // Dispatch a publish that matches all the filters for dropped receivers.
    let topic_name = TopicName::from_str("sport/tennis/player1").unwrap();
    assert!(topic_name.matches_topic_filter(&topic_filter3)); // Type 1
    assert!(topic_name.matches_topic_filter(&topic_filter5)); // Type 2
    assert!(topic_name.matches_topic_filter(&topic_filter6)); // Type 3
    let publish = create_publish(&topic_name, "payload 1", 1);
    f.dispatch(&publish).unwrap();

    // The entries are now updated to remove the dropped filters if the dispatched publish topic
    // name matches the dropped filter.
    // Since this publish matched all filters, all dropped receiver entries are now removed.
    // The remaining receiver entries are all still open (implying the correct one was removed).
    assert_eq!(f.filter_count(), 2);
    assert_eq!(f.count_for(&topic_filter3), 2); // Type 1
    assert!(f.all_open_for(&topic_filter3)); // Type 1
    assert_eq!(f.count_for(&topic_filter5), 1); // Type 2
    assert!(f.all_open_for(&topic_filter5)); // Type 2
    assert_eq!(f.count_for(&topic_filter6), 0); // Type 3

    // Drop one of each type of receiver remaining
    drop(filter_rx2); // Type 1
    drop(filter_rx4); // Type 2

    // The entries are still the same after the drop
    assert_eq!(f.filter_count(), 2);
    assert_eq!(f.count_for(&topic_filter2), 2); // Type 1
    assert_eq!(f.count_for(&topic_filter4), 1); // Type 2
    assert_eq!(f.count_for(&topic_filter6), 0); // Type 3

    // Dispatch a publish that only matches one of the filters for dropped receivers.
    let topic_name = TopicName::from_str("sport/tennis/player2").unwrap();
    assert!(topic_name.matches_topic_filter(&topic_filter2)); // Type 1
    assert!(!topic_name.matches_topic_filter(&topic_filter4)); // Type 2
    let publish = create_publish(&topic_name, "payload 2", 2);
    f.dispatch(&publish).unwrap();

    // Only the dropped receiver entries filters with a filter that was matched by the dispatched
    // publish topic name were removed.
    // Topic filter 4 was not matched by the dispatched publish, so it remains despite having a
    // dropped receiver.
    assert_eq!(f.filter_count(), 2);
    assert_eq!(f.count_for(&topic_filter2), 1); // Type 1
    assert!(f.all_open_for(&topic_filter2)); // Type 1
    assert_eq!(f.count_for(&topic_filter4), 1); // Type 2
    assert!(!f.all_open_for(&topic_filter4)); // Type 2

    // Drop the remaining receivers
    drop(filter_rx1);
}

#[test]
fn lazy_unfiltered_receiver_cleanup_on_dispatch() {
    let mut f = Fixture::new();

    // Create several unfiltered receivers
    let unfiltered_rx1 = f.manager().create_unfiltered_receiver();
    let unfiltered_rx2 = f.manager().create_unfiltered_receiver();
    let unfiltered_rx3 = f.manager().create_unfiltered_receiver();

    // There are three entries for the unfiltered receivers
    assert_eq!(f.manager().unfiltered_txs.len(), 3);

    // Drop one of the receivers
    drop(unfiltered_rx2);

    // The entries are still the same after the drop
    assert_eq!(f.manager().unfiltered_txs.len(), 3);

    // Dispatch a publish
    let topic_name = TopicName::from_str("sport/tennis/player1").unwrap();
    let publish = create_publish(&topic_name, "payload 1", 1);
    f.dispatch(&publish).unwrap();

    // The entries are now updated to remove the dropped receiver
    assert_eq!(f.manager().unfiltered_txs.len(), 2);

    // Drop the remaining receivers
    drop(unfiltered_rx1);
    drop(unfiltered_rx3);
}

#[test]
fn dispatch_auto_ack_when_zero_dispatches() {
    for qos in ACKED_QOS {
        let mut f = Fixture::new();

        // Dispatch without creating any receivers, and the publish is sent to 0 receivers
        let topic_name = TopicName::from_str("sport/tennis/player1").unwrap();
        let publish = create_publish_qos(&topic_name, "publish 1", 1, qos);
        assert_eq!(f.dispatch(&publish).unwrap(), 0);

        // The publish was acked on the mock client
        assert_eq!(f.ack_count(), 1);
        assert_eq!(f.acked(), vec![publish.clone()]);

        // Reset the mock client
        f.client.mock_controller().reset_mock();
        assert_eq!(f.ack_count(), 0);

        // Create a filtered receiver that does not match the publish topic name
        let topic_filter = TopicFilter::from_str("finance/bonds/banker1").unwrap();
        assert!(!topic_filter.matches_topic_name(&topic_name));
        let filtered_rx = f.manager().create_filtered_receiver(&topic_filter);

        // Dispatch publish again, and it is still sent to 0 receivers
        assert_eq!(f.dispatch(&publish).unwrap(), 0);

        // The publish was acked on the mock client
        assert_eq!(f.ack_count(), 1);
        assert_eq!(f.acked(), vec![publish.clone()]);

        // Reset the mock client (and drop the above receiver that went unused)
        f.client.mock_controller().reset_mock();
        assert_eq!(f.ack_count(), 0);
        drop(filtered_rx);

        // Create a filtered receiver that DOES match the publish topic name, and then drop it
        // so that the channel wil be closed
        let topic_filter = TopicFilter::from_str("sport/tennis/player1").unwrap();
        assert!(topic_filter.matches_topic_name(&topic_name));
        let filtered_rx = f.manager().create_filtered_receiver(&topic_filter);
        drop(filtered_rx);

        // Dispatch publish again, and it is still sent to 0 receivers
        assert_eq!(f.dispatch(&publish).unwrap(), 0);

        // The publish was acked on the mock client
        assert_eq!(f.ack_count(), 1);
        assert_eq!(f.acked(), vec![publish.clone()]);

        // Reset the mock client
        f.client.mock_controller().reset_mock();
        assert_eq!(f.ack_count(), 0);

        // Create an unfiltered receiver
        let unfiltered_rx = f.manager().create_unfiltered_receiver();

        // Dispatch publish again, and it is now sent to 1 receiver
        assert_eq!(f.dispatch(&publish).unwrap(), 1);

        // This time the publish was not acked on the mock client
        assert_eq!(f.ack_count(), 0);

        drop(unfiltered_rx);
    }
}

#[test]
fn dispatch_never_ack_on_qos0() {
    let mut f = Fixture::new();

    // Dispatch without creating any receivers, and the publish is sent to 0 receivers
    let topic_name = TopicName::from_str("sport/tennis/player1").unwrap();
    let publish = create_publish_qos(&topic_name, "publish 1", 0, QoS::AtMostOnce);
    assert_eq!(f.dispatch(&publish).unwrap(), 0);

    // The publish was not acked on the mock client
    assert_eq!(f.ack_count(), 0);

    // Create a filtered receiver that does not match the publish topic name
    let topic_filter = TopicFilter::from_str("finance/bonds/banker1").unwrap();
    assert!(!topic_filter.matches_topic_name(&topic_name));
    let _filtered_rx = f.manager().create_filtered_receiver(&topic_filter);

    // Dispatch publish again, and it is still sent to 0 receivers
    assert_eq!(f.dispatch(&publish).unwrap(), 0);

    // The publish was not acked on the mock client
    assert_eq!(f.ack_count(), 0);

    // Create an unfiltered receiver
    let mut unfiltered_rx = f.manager().create_unfiltered_receiver();

    // Dispatch publish again, and it is now sent to 1 receiver
    assert_eq!(f.dispatch(&publish).unwrap(), 1);

    // The publish was not acked on the mock client
    assert_eq!(f.ack_count(), 0);

    // Receive on the unfiltered receiver, and no ack token is returned
    let (r_publish, ack_token) = unfiltered_rx.try_recv().unwrap();
    assert_eq!(r_publish, publish);
    assert!(ack_token.is_none());

    // The publish was not acked on the mock client
    assert_eq!(f.ack_count(), 0);

    // Drop the receiver
    f.drop_receiver(unfiltered_rx);

    // The publish was STILL not acked on the mock client
    assert_eq!(f.ack_count(), 0);
}

#[test]
fn ack_token_ordered_ack_single_receiver() {
    for qos in ACKED_QOS {
        let mut f = Fixture::new();

        // Create an unfiltered receiver
        let mut unfiltered_rx = f.manager().create_unfiltered_receiver();

        // Dispatched publish is received by the unfiltered receiver
        let topic_name = TopicName::from_str("sport/tennis/player1").unwrap();
        let publish = create_publish_qos(&topic_name, "publish 1", 1, qos);
        assert_eq!(f.dispatch(&publish).unwrap(), 1);
        let (r_publish, ack_token) = unfiltered_rx.try_recv().unwrap();

        // No ack has occurred for the publish yet
        assert_eq!(f.ack_count(), 0);

        // Acknowledge the received publish
        f.ack(ack_token);

        // Ack has now occurred for the publish
        assert_eq!(f.ack_count(), 1);
        assert_eq!(f.acked(), vec![r_publish]);
    }
}

#[test]
fn ack_token_ordered_ack_multi_receiver() {
    for qos in ACKED_QOS {
        let mut f = Fixture::new();

        // Create unfiltered receivers
        let mut unfiltered_rx1 = f.manager().create_unfiltered_receiver();
        let mut unfiltered_rx2 = f.manager().create_unfiltered_receiver();

        // Dispatched publish is received by the unfiltered receivers
        let topic_name = TopicName::from_str("sport/tennis/player1").unwrap();
        let publish = create_publish_qos(&topic_name, "payload", 1, qos);
        assert_eq!(f.dispatch(&publish).unwrap(), 2);
        let (r_publish1, ack_token1) = unfiltered_rx1.try_recv().unwrap();
        let (r_publish2, ack_token2) = unfiltered_rx2.try_recv().unwrap();

        // No ack has occurred for the publish yet
        assert_eq!(f.ack_count(), 0);

        // Acknowledge the received publish with one of the ack tokens
        f.ack(ack_token1);

        // Ack has not yet occurred on the mock client
        assert_eq!(f.ack_count(), 0);

        // Acknowledge the received publish with the other ack token
        f.ack(ack_token2);

        // Ack has now occurred for the publish
        assert_eq!(f.ack_count(), 1);
        assert_eq!(f.acked(), vec![publish.clone()]);
        assert_eq!(r_publish1, publish);
        assert_eq!(r_publish2, publish);
    }
}

#[test]
fn ack_token_unordered_ack_single_receiver() {
    for qos in ACKED_QOS {
        let mut f = Fixture::new();

        // Create unfiltered receivers
        let mut unfiltered_rx = f.manager().create_unfiltered_receiver();

        // Dispatch publishes
        let topic_name = TopicName::from_str("sport/tennis/player1").unwrap();
        let publish1 = create_publish_qos(&topic_name, "payload 1", 1, qos);
        let publish2 = create_publish_qos(&topic_name, "payload 2", 2, qos);
        let publish3 = create_publish_qos(&topic_name, "payload 3", 3, qos);
        let publish4 = create_publish_qos(&topic_name, "payload 4", 4, qos);
        assert_eq!(f.dispatch(&publish1).unwrap(), 1);
        assert_eq!(f.dispatch(&publish2).unwrap(), 1);
        assert_eq!(f.dispatch(&publish3).unwrap(), 1);
        assert_eq!(f.dispatch(&publish4).unwrap(), 1);

        // Receive the publishes
        let (r_publish1, ack_token1) = unfiltered_rx.try_recv().unwrap();
        let (r_publish2, ack_token2) = unfiltered_rx.try_recv().unwrap();
        let (r_publish3, ack_token3) = unfiltered_rx.try_recv().unwrap();
        let (r_publish4, ack_token4) = unfiltered_rx.try_recv().unwrap();

        // No acks yet
        assert!(f.ack_count() == 0);

        // Acking the third publish does not result in the ack triggering on the client
        f.ack(ack_token3);
        assert!(f.ack_count() == 0);

        // Acking the fourth publish does not result in the ack triggering on the client
        f.ack(ack_token4);
        assert!(f.ack_count() == 0);

        // Acking the first publish, will result in a single ack on the client (for the first
        // publish)
        f.ack(ack_token1);
        assert!(f.ack_count() == 1);

        // Acking the second publish, will result in 3 acks on the client (for second/third/fourth
        // publishes)
        f.ack(ack_token2);
        assert!(f.ack_count() == 4);
        assert!(f.waiting.is_empty());

        // The publishes were acked on the client in the order they were received
        assert_eq!(f.acked(), vec![r_publish1, r_publish2, r_publish3, r_publish4]);
    }
}

#[test]
fn ack_token_unordered_ack_multi_receiver() {
    for qos in ACKED_QOS {
        let mut f = Fixture::new();

        // Create unfiltered receivers
        let mut unfiltered_rx1 = f.manager().create_unfiltered_receiver();
        let mut unfiltered_rx2 = f.manager().create_unfiltered_receiver();

        // Dispatch publishes
        let topic_name = TopicName::from_str("sport/tennis/player1").unwrap();
        let publish1 = create_publish_qos(&topic_name, "payload 1", 1, qos);
        let publish2 = create_publish_qos(&topic_name, "payload 2", 2, qos);
        let publish3 = create_publish_qos(&topic_name, "payload 3", 3, qos);
        let publish4 = create_publish_qos(&topic_name, "payload 4", 4, qos);
        assert_eq!(f.dispatch(&publish1).unwrap(), 2);
        assert_eq!(f.dispatch(&publish2).unwrap(), 2);
        assert_eq!(f.dispatch(&publish3).unwrap(), 2);
        assert_eq!(f.dispatch(&publish4).unwrap(), 2);

        // Receive the publishes
        let (_r1_publish1, r1_ack_token1) = unfiltered_rx1.try_recv().unwrap();
        let (_r1_publish2, r1_ack_token2) = unfiltered_rx1.try_recv().unwrap();
        let (_r1_publish3, r1_ack_token3) = unfiltered_rx1.try_recv().unwrap();
        let (_r1_publish4, r1_ack_token4) = unfiltered_rx1.try_recv().unwrap();
        let (_r2_publish1, r2_ack_token1) = unfiltered_rx2.try_recv().unwrap();
        let (_r2_publish2, r2_ack_token2) = unfiltered_rx2.try_recv().unwrap();
        let (_r2_publish3, r2_ack_token3) = unfiltered_rx2.try_recv().unwrap();
        let (_r2_publish4, r2_ack_token4) = unfiltered_rx2.try_recv().unwrap();

        // No acks yet
        assert!(f.ack_count() == 0);

        // Acking the third publish with both receivers does not result in the ack triggering on the
        // client
        f.ack(r1_ack_token3);
        f.ack(r2_ack_token3);
        assert!(f.ack_count() == 0);

        // Acking the fourth publish with the first receiver does not result in the ack triggering
        // on the client
        f.ack(r1_ack_token4);
        assert!(f.ack_count() == 0);

        // Acking the first publish with the first receiver does not result in the ack triggering on
        // the client
        f.ack(r1_ack_token1);
        assert!(f.ack_count() == 0);

        // Acking the first publish with the second receiver now results in the first ack triggering
        // on the client
        f.ack(r2_ack_token1);
        assert!(f.ack_count() == 1);

        // Acking the second publish with the first receiver does not result in the ack triggering
        // on the client
        f.ack(r1_ack_token2);
        assert!(f.ack_count() == 1);

        // Acking the fourth publish on the second receiver does not result in the ack triggering on
        // the client
        f.ack(r2_ack_token4);
        assert!(f.ack_count() == 1);

        // Acking the second publish with the second receiver now results in all three remaining
        // acks to trigger on the client
        f.ack(r2_ack_token2);
        assert!(f.ack_count() == 4);
        assert!(f.waiting.is_empty());

        // The publishes were acked on the client in the order they were received
        assert_eq!(f.acked(), vec![publish1, publish2, publish3, publish4]);
    }
}

#[test]
fn ack_token_drop_before_ack_single_receiver() {
    for qos in ACKED_QOS {
        let mut f = Fixture::new();

        // Create an unfiltered receiver
        let mut unfiltered_rx = f.manager().create_unfiltered_receiver();

        // Dispatched publish is received by the unfiltered receiver
        let topic_name = TopicName::from_str("sport/tennis/player1").unwrap();
        let publish = create_publish_qos(&topic_name, "publish 1", 1, qos);
        assert_eq!(f.dispatch(&publish).unwrap(), 1);
        let (r_publish, ack_token) = unfiltered_rx.try_recv().unwrap();

        // No ack has occurred for the publish yet
        assert_eq!(f.ack_count(), 0);

        // Drop the ack token, which is told to the dispatcher like an ack
        f.ack(ack_token);

        // Ack has now occurred for the publish
        assert_eq!(f.ack_count(), 1);
        assert_eq!(f.acked(), vec![r_publish]);
    }
}

#[test]
fn ack_token_drop_before_ack_multi_receiver() {
    for qos in ACKED_QOS {
        let mut f = Fixture::new();

        // Create an unfiltered receiver
        let mut unfiltered_rx1 = f.manager().create_unfiltered_receiver();
        let mut unfiltered_rx2 = f.manager().create_unfiltered_receiver();

        // Dispatched publish is received by the unfiltered receiver
        let topic_name = TopicName::from_str("sport/tennis/player1").unwrap();
        let publish = create_publish_qos(&topic_name, "publish 1", 1, qos);
        assert_eq!(f.dispatch(&publish).unwrap(), 2);
        let (_, ack_token1) = unfiltered_rx1.try_recv().unwrap();
        let (_, ack_token2) = unfiltered_rx2.try_recv().unwrap();

        // No ack has occurred for the publish yet
        assert_eq!(f.ack_count(), 0);

        // Drop the first ack token, which is told to the dispatcher like an ack
        f.ack(ack_token1);

        // Ack has not yet occurred for the publish
        assert_eq!(f.ack_count(), 0);

        // Ack the second ack token
        f.ack(ack_token2);

        // Ack has now occurred for the publish
        assert_eq!(f.ack_count(), 1);
        assert_eq!(f.acked(), vec![publish]);
    }
}

#[test]
fn receiver_drop_before_ack_single_receiver() {
    for qos in ACKED_QOS {
        let mut f = Fixture::new();

        // Create an unfiltered receiver
        let unfiltered_rx = f.manager().create_unfiltered_receiver();

        // Dispatch to the receiver, but do not actually receive on the receiver
        let topic_name = TopicName::from_str("sport/tennis/player1").unwrap();
        let publish = create_publish_qos(&topic_name, "publish 1", 1, qos);
        assert_eq!(f.dispatch(&publish).unwrap(), 1);

        // No ack has occurred for the publish yet
        assert_eq!(f.ack_count(), 0);

        // Drop the receiver before receiving/acknowledging the publish
        f.drop_receiver(unfiltered_rx);

        // Ack has now occurred for the publish
        assert_eq!(f.ack_count(), 1);
        assert_eq!(f.acked(), vec![publish]);
    }
}

#[test]
fn receiver_drop_before_ack_multi_receiver() {
    for qos in ACKED_QOS {
        let mut f = Fixture::new();

        // Create an unfiltered receiver
        let unfiltered_rx1 = f.manager().create_unfiltered_receiver();
        let mut unfiltered_rx2 = f.manager().create_unfiltered_receiver();

        // Dispatch to the receivers, but do not actually receive with them
        let topic_name = TopicName::from_str("sport/tennis/player1").unwrap();
        let publish = create_publish_qos(&topic_name, "publish 1", 1, qos);
        assert_eq!(f.dispatch(&publish).unwrap(), 2);

        // No ack has occurred for the publish yet
        assert_eq!(f.ack_count(), 0);

        // Drop the receiver before receiving/acknowledging the publish
        f.drop_receiver(unfiltered_rx1);

        // Still, no ack has occurred for the publish yet
        assert_eq!(f.ack_count(), 0);

        // Acknowledge the other ack token normally
        let (_, ack_token) = unfiltered_rx2.try_recv().unwrap();
        f.ack(ack_token);

        // Ack has now occurred for the publish
        assert_eq!(f.ack_count(), 1);
        assert_eq!(f.acked(), vec![publish]);
    }
}

#[test]
fn dispatcher_and_manager_drop() {
    for qos in ACKED_QOS {
        let mut f = Fixture::new();

        // Create an unfiltered receiver
        let mut unfiltered_rx = f.manager().create_unfiltered_receiver();

        // Dispatch to the receiver, but do not actually receive with it
        let topic_name = TopicName::from_str("sport/tennis/player1").unwrap();
        let publish = create_publish_qos(&topic_name, "publish 1", 1, qos);
        assert_eq!(f.dispatch(&publish).unwrap(), 1);

        // Drop the senders to all receivers
        *f.manager() = PublishReceiverManager::default();

        // No ack has occurred for the publish yet
        assert_eq!(f.ack_count(), 0);

        // Receiver can still receive and ack
        let (r_publish, ack_token) = unfiltered_rx.try_recv().unwrap();
        assert_eq!(r_publish, publish);
        f.ack(ack_token);

        // Ack has now occurred
        assert_eq!(f.ack_count(), 1);
        assert_eq!(f.acked(), vec![publish]);

        // Trying to receive again tells that the channel is closed
        assert_eq!(
            unfiltered_rx.try_recv().unwrap_err(),
            TryRecvError::Disconnected
        );
    }
}

#[test]
fn dispatch_discards_duplicate_of_unacked_publish() {
    let mut f = Fixture::new();
    let mut rx = f.manager().create_unfiltered_receiver();
    let topic_name = TopicName::from_str("sport/tennis/player1").unwrap();
    let publish = create_publish(&topic_name, "publish 1", 1);
    assert_eq!(f.dispatch(&publish).unwrap(), 1);

    // The same publish, marked as a duplicate, is discarded
    let mut duplicate = publish.clone();
    duplicate.dup = true;
    assert_eq!(f.dispatch(&duplicate).unwrap(), 0);
    let (_, token) = rx.try_recv().unwrap();
    assert_eq!(rx.try_recv().unwrap_err(), TryRecvError::Empty);
    assert_eq!(f.ack_count(), 0);

    // Once the publish was acked, it is dispatched again
    f.ack(token);
    assert_eq!(f.ack_count(), 1);
    assert_eq!(f.dispatch(&duplicate).unwrap(), 1);
    assert_expected_recv_value(&rx.try_recv().unwrap(), &duplicate);
}

#[test]
fn dispatch_errors_change_nothing() {
    let mut f = Fixture::new();
    let mut rx = f.manager().create_unfiltered_receiver();
    let topic_name = TopicName::from_str("sport/tennis/player1").unwrap();

    let pkid_zero = create_publish(&topic_name, "publish", 0);
    assert_eq!(
        f.dispatch(&pkid_zero),
        Err(DispatchError::InvalidPublishPkid(PkidError::PkidZero))
    );

    let mut not_utf8 = create_publish(&topic_name, "publish", 1);
    not_utf8.topic = Bytes::from(vec![0x61, 0xFF]);
    assert_eq!(
        f.dispatch(&not_utf8),
        Err(DispatchError::InvalidPublishTopic(InvalidPublish::TopicNameUtf8))
    );

    let wildcard = Publish::new("sport/+", QoS::AtMostOnce, Bytes::new(), None);
    assert_eq!(
        f.dispatch(&wildcard),
        Err(DispatchError::InvalidPublishTopic(
            InvalidPublish::TopicNameFormat(TopicParseError::WildcardInTopicName)
        ))
    );

    assert_eq!(rx.try_recv().unwrap_err(), TryRecvError::Empty);
    assert_eq!(f.ack_count(), 0);
    // The PKID of the publish that was refused is free
    let publish = create_publish(&topic_name, "publish", 1);
    assert_eq!(f.dispatch(&publish).unwrap(), 1);
}

#[test]
fn dispatch_error_messages() {
    assert_eq!(
        DispatchError::InvalidPublishPkid(PkidError::PkidDuplicate).to_string(),
        "packet ID for publish invalid: Pkid already in queue"
    );
    assert_eq!(
        DispatchError::InvalidPublishTopic(InvalidPublish::TopicNameUtf8).to_string(),
        "could not get topic from publish: invalid UTF-8"
    );
    assert_eq!(
        InvalidPublish::TopicNameFormat(TopicParseError::Empty).to_string(),
        format!("invalid topic: {}", TopicParseError::Empty.to_string())
    );
}

#[test]
fn tokens_of_other_pkids_do_not_release_a_publish() {
    let mut f = Fixture::new();
    let mut rx = f.manager().create_unfiltered_receiver();
    let topic_name = TopicName::from_str("a").unwrap();
    f.dispatch(&create_publish(&topic_name, "1", 1)).unwrap();
    f.dispatch(&create_publish(&topic_name, "2", 2)).unwrap();
    let (_, token1) = rx.try_recv().unwrap();
    let (_, token2) = rx.try_recv().unwrap();
    assert!(f.dispatcher.release(token2.unwrap()));
    let (publish, turn) = f.dispatcher.request_next_ack().unwrap();
    assert_eq!(publish.pkid, 2);
    assert_eq!(turn, AckTurn::Wait);
    assert!(f.dispatcher.request_next_ack().is_none());
    assert!(!f.dispatcher.ask_again(2));
    // A PKID that does not wait is not told that its turn has come
    assert!(!f.dispatcher.ask_again(1));
    assert!(f.dispatcher.release(token1.unwrap()));
    let (publish, turn) = f.dispatcher.request_next_ack().unwrap();
    assert_eq!(publish.pkid, 1);
    assert_eq!(turn, AckTurn::Now);
    assert!(f.dispatcher.ask_again(2));
    assert!(!f.dispatcher.ask_again(2));
}
