use azure_iot_operations::control_packet::{Publish, QoS};
use azure_iot_operations::error::AckErrorKind;
use azure_iot_operations::interface_mocks::{MockClient, MockClientCall};
use azure_iot_operations::session::receiver::ordered_acker::{
    AckTurn, OrderedAcker, PkidAckQueue, PkidError,
};
use azure_iot_operations::session::receiver::plenary_ack::PlenaryAck;
use bytes::Bytes;

fn create_publish_qos(topic_name: &str, payload: &str, pkid: u16, qos: QoS) -> Publish {
    // NOTE: If QoS is 0, this WILL OVERRIDE THE PKID (since pkid 0 for QoS 0)
    let mut publish = Publish::new(topic_name, qos, Bytes::from(payload.to_string()), None);
    if qos != QoS::AtMostOnce {
        publish.pkid = pkid;
    }
    publish
}

/// Sends the acks that an acker decides on, in the way that the owner of an acker does.
struct Acks {
    acker: OrderedAcker,
    queue: PkidAckQueue,
    client: MockClient,
    waiting: Vec<Publish>,
}

impl Acks {
    fn new(queue: PkidAckQueue) -> Self {
        Acks {
            acker: OrderedAcker::new(),
            queue,
            client: MockClient::new(),
            waiting: Vec::new(),
        }
    }

    /// Returns whether the ack was requested without an error.
    fn ordered_ack(&mut self, publish: &Publish) -> Result<AckTurn, AckErrorKind> {
        let turn = match self.acker.ordered_ack(&mut self.queue, publish) {
            Ok(turn) => turn,
            Err(e) => return Err(*e.kind()),
        };
        match turn {
            AckTurn::NotNeeded => {}
            AckTurn::Now => {
                self.client.ack(publish).unwrap();
                self.ask_again();
            }
            AckTurn::Wait => self.waiting.push(publish.clone()),
        }
        Ok(turn)
    }

    fn ask_again(&mut self) {
        let mut i = 0;
        while i < self.waiting.len() {
            if self.acker.ask_again(&mut self.queue, self.waiting[i].pkid) {
                let publish = self.waiting.remove(i);
                self.client.ack(&publish).unwrap();
                i = 0;
            } else {
                i += 1;
            }
        }
    }

    fn acked_pkids(&mut self) -> Vec<u16> {
        let mut pkids = Vec::new();
        for call in self.client.mock_controller().call_sequence() {
            match call {
                MockClientCall::Ack(call) => pkids.push(call.publish.pkid),
                _ => panic!("Unexpected call"),
            }
        }
        pkids
    }
}

#[test]
fn pkid_queue() {
    let mut pkid_queue = PkidAckQueue::default();
    pkid_queue.insert(1).unwrap();
    pkid_queue.insert(2).unwrap();
    pkid_queue.insert(3).unwrap();
    assert_eq!(pkid_queue.check_next_ack_pkid(), Some(&1));
    assert_eq!(pkid_queue.pop_next_ack_pkid(), Some(1));
    assert_eq!(pkid_queue.check_next_ack_pkid(), Some(&2));
    assert_eq!(pkid_queue.pop_next_ack_pkid(), Some(2));
    assert_eq!(pkid_queue.check_next_ack_pkid(), Some(&3));
    assert_eq!(pkid_queue.pop_next_ack_pkid(), Some(3));
    assert_eq!(pkid_queue.check_next_ack_pkid(), None);
    assert_eq!(pkid_queue.pop_next_ack_pkid(), None);
}

#[test]
fn pkid_queue_duplicate() {
    let mut pkid_queue = PkidAckQueue::default();
    pkid_queue.insert(1).unwrap();
    assert_eq!(pkid_queue.insert(1).unwrap_err(), PkidError::PkidDuplicate);
}

#[test]
fn pkid_queue_zero() {
    let mut pkid_queue = PkidAckQueue::default();
    assert_eq!(pkid_queue.insert(0).unwrap_err(), PkidError::PkidZero);
}

#[test]
fn pkid_queue_refusals_change_nothing() {
    let mut pkid_queue = PkidAckQueue::default();
    pkid_queue.insert(7).unwrap();
    pkid_queue.insert(65535).unwrap();
    assert!(pkid_queue.insert(7).is_err());
    assert!(pkid_queue.insert(0).is_err());
    assert_eq!(pkid_queue.len(), 2);
    assert!(pkid_queue.contains(7));
    assert!(pkid_queue.contains(65535));
    assert!(!pkid_queue.contains(0));
    assert_eq!(pkid_queue.pop_next_ack_pkid(), Some(7));
    // A PKID can be used again once it has left the queue
    assert!(!pkid_queue.contains(7));
    pkid_queue.insert(7).unwrap();
    assert_eq!(pkid_queue.pop_next_ack_pkid(), Some(65535));
    assert_eq!(pkid_queue.pop_next_ack_pkid(), Some(7));
}

#[test]
fn pkid_error_messages() {
    assert_eq!(PkidError::PkidDuplicate.to_string(), "Pkid already in queue");
    assert_eq!(PkidError::PkidZero.to_string(), "Pkid 0 not allowed");
}

#[test]
fn ack_ordered_invokes() {
    for qos in [QoS::AtLeastOnce, QoS::ExactlyOnce] {
        let mut pkid_queue = PkidAckQueue::default();
        pkid_queue.insert(1).unwrap();
        pkid_queue.insert(2).unwrap();
        pkid_queue.insert(3).unwrap();
        let mut acks = Acks::new(pkid_queue);

        let publish1 = create_publish_qos("test", "publish 1", 1, qos);
        let publish2 = create_publish_qos("test", "publish 2", 2, qos);
        let publish3 = create_publish_qos("test", "publish 3", 3, qos);

        // No acks yet
        assert_eq!(acks.client.mock_controller().ack_count(), 0);

        // Acking the publishes in the same order of the PKID queue will result in immediate acks
        // on each publish
        assert_eq!(acks.ordered_ack(&publish1), Ok(AckTurn::Now));
        assert_eq!(acks.client.mock_controller().ack_count(), 1);
        assert_eq!(acks.ordered_ack(&publish2), Ok(AckTurn::Now));
        assert_eq!(acks.client.mock_controller().ack_count(), 2);
        assert_eq!(acks.ordered_ack(&publish3), Ok(AckTurn::Now));
        assert_eq!(acks.client.mock_controller().ack_count(), 3);

        // Validate order
        assert_eq!(acks.acked_pkids(), vec![1, 2, 3]);
    }
}

#[test]
fn ack_unordered_invokes() {
    for qos in [QoS::AtLeastOnce, QoS::ExactlyOnce] {
        let mut pkid_queue = PkidAckQueue::default();
        pkid_queue.insert(1).unwrap();
        pkid_queue.insert(2).unwrap();
        pkid_queue.insert(3).unwrap();
        let mut acks = Acks::new(pkid_queue);

        let publish1 = create_publish_qos("test", "publish 1", 1, qos);
        let publish2 = create_publish_qos("test", "publish 2", 2, qos);
        let publish3 = create_publish_qos("test", "publish 3", 3, qos);

        // No acks yet
        assert_eq!(acks.client.mock_controller().ack_count(), 0);

        // Acking the publishes in a different order than the PKID queue will result in the
        // client ack being delayed until the expected ack based on ordering occurs.
        assert_eq!(acks.ordered_ack(&publish3), Ok(AckTurn::Wait));
        assert_eq!(acks.ordered_ack(&publish2), Ok(AckTurn::Wait));
        assert_eq!(acks.waiting.len(), 2);
        assert_eq!(acks.client.mock_controller().ack_count(), 0);

        // Only after finally acking the first publish in the PKID queue will the acks trigger
        assert_eq!(acks.ordered_ack(&publish1), Ok(AckTurn::Now));
        assert!(acks.waiting.is_empty());
        assert_eq!(acks.client.mock_controller().ack_count(), 3);

        // Validate order
        assert_eq!(acks.acked_pkids(), vec![1, 2, 3]);
    }
}

#[test]
fn qos0() {
    let mut acks = Acks::new(PkidAckQueue::default());
    let publish = create_publish_qos("test", "publish 1", 0, QoS::AtMostOnce);

    assert_eq!(acks.client.mock_controller().ack_count(), 0);

    assert_eq!(acks.ordered_ack(&publish), Ok(AckTurn::NotNeeded));

    // Even after doing the ordered ack, no ack was actually sent (b/c QoS 0)
    assert_eq!(acks.client.mock_controller().ack_count(), 0);
}

#[test]
fn failure_with_duplicate_pkid() {
    for qos in [QoS::AtLeastOnce, QoS::ExactlyOnce] {
        let mut pkid_queue = PkidAckQueue::default();
        pkid_queue.insert(1).unwrap();
        pkid_queue.insert(2).unwrap();
        pkid_queue.insert(3).unwrap();
        let mut acks = Acks::new(pkid_queue);

        // Ack a publish that is not yet available for acking due to being behind another PKID in
        // the queue
        let publish = create_publish_qos("test", "publish", 2, qos);
        let publish_copy = publish.clone();
        assert_eq!(acks.ordered_ack(&publish), Ok(AckTurn::Wait));
        assert!(acks.client.mock_controller().ack_count() == 0);

        // Now ack another publish with the same PKID. This one will fail.
        let result = acks.ordered_ack(&publish_copy);
        assert!(result.is_err());
        assert_eq!(result, Err(AckErrorKind::AlreadyAcked));
    }
}

#[test]
fn acks_follow_the_order_of_receipt_for_every_order_of_requests() {
    let orders: Vec<Vec<u16>> = vec![
        vec![5, 9, 2],
        vec![5, 2, 9],
        vec![9, 5, 2],
        vec![9, 2, 5],
        vec![2, 5, 9],
        vec![2, 9, 5],
    ];
    for order in orders {
        let mut pkid_queue = PkidAckQueue::default();
        for pkid in [5, 9, 2] {
            pkid_queue.insert(pkid).unwrap();
        }
        let mut acks = Acks::new(pkid_queue);
        for pkid in order {
            let publish = create_publish_qos("test", "payload", pkid, QoS::AtLeastOnce);
            acks.ordered_ack(&publish).unwrap();
        }
        assert_eq!(acks.acked_pkids(), vec![5, 9, 2]);
        assert_eq!(acks.queue.len(), 0);
        assert!(!acks.acker.is_waiting(5));
    }
}

#[test]
fn plenary_ack_is_due_when_the_last_member_is_done() {
    let mut ack = PlenaryAck::new(12);
    assert_eq!(ack.create_member().pkid(), 12);
    assert_eq!(ack.create_member().pkid(), 12);
    assert_eq!(ack.create_member().pkid(), 12);
    // Not due before it has commenced
    assert!(!ack.member_done());
    assert!(!ack.commence());
    assert!(!ack.member_done());
    assert!(ack.member_done());
    assert_eq!(ack.pkid(), 12);
}

#[test]
fn plenary_ack_without_members_is_due_at_once() {
    let mut ack = PlenaryAck::new(1);
    assert!(ack.commence());
}
