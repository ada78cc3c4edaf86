//! Bespoke mocks for the MQTT client.

use bytes::Bytes;
use vstd::prelude::*;

use crate::bytes_data::{self, bytes_clone};
use crate::control_packet::{
    self, Publish, PublishProperties, QoS, SubscribeProperties, UnsubscribeProperties,
};
use crate::error::{
    AckError, DisconnectError, PublishError, ReauthError, SubscribeError, UnsubscribeError,
};
use crate::text;

verus! {

/// A call of the client.
#[derive(Debug, PartialEq, Eq)]
pub enum MockClientCall {
    Publish(PublishCall),
    Subscribe(SubscribeCall),
    Unsubscribe(UnsubscribeCall),
    Ack(AckCall),
}

/// A call that publishes.
#[derive(Debug, PartialEq, Eq)]
pub struct PublishCall {
    pub topic: String,
    pub qos: QoS,
    pub retain: bool,
    pub payload: Bytes,
    pub properties: Option<PublishProperties>,
}

/// A call that subscribes.
#[derive(Debug, PartialEq, Eq)]
pub struct SubscribeCall {
    pub topic: String,
    pub qos: QoS,
    pub properties: Option<SubscribeProperties>,
}

/// A call that unsubscribes.
#[derive(Debug, PartialEq, Eq)]
pub struct UnsubscribeCall {
    pub topic: String,
    pub properties: Option<UnsubscribeProperties>,
}

/// A call that acks.
#[derive(Debug, PartialEq, Eq)]
pub struct AckCall {
    pub publish: Publish,
}

/// What a [`MockClientCall`] stands for.
pub enum CallView {
    Publish(
        Seq<char>,
        QoS,
        bool,
        Seq<u8>,
        Option<control_packet::PublishPropertiesView>,
    ),
    Subscribe(Seq<char>, QoS, Option<(Option<usize>, Seq<text::Pair>)>),
    Unsubscribe(Seq<char>, Option<Seq<text::Pair>>),
    Ack(control_packet::PublishView),
}

/// What optional properties stand for.
pub open spec fn opt_subscribe(p: Option<SubscribeProperties>) -> Option<
    (Option<usize>, Seq<text::Pair>),
> {
    match p {
        Some(x) => Some(x@),
        None => None,
    }
}

/// What optional properties stand for.
pub open spec fn opt_unsubscribe(p: Option<UnsubscribeProperties>) -> Option<Seq<text::Pair>> {
    match p {
        Some(x) => Some(x@),
        None => None,
    }
}

impl View for MockClientCall {
    type V = CallView;

    open spec fn view(&self) -> CallView {
        match self {
            MockClientCall::Publish(c) => CallView::Publish(
                c.topic@,
                c.qos,
                c.retain,
                bytes_data::contents(c.payload),
                control_packet::opt_properties(c.properties),
            ),
            MockClientCall::Subscribe(c) => CallView::Subscribe(
                c.topic@,
                c.qos,
                opt_subscribe(c.properties),
            ),
            MockClientCall::Unsubscribe(c) => CallView::Unsubscribe(
                c.topic@,
                opt_unsubscribe(c.properties),
            ),
            MockClientCall::Ack(c) => CallView::Ack(c.publish@),
        }
    }
}

impl Clone for MockClientCall {
    fn clone(&self) -> (r: Self)
        ensures
            r@ == self@,
    {
        match self {
            MockClientCall::Publish(c) => MockClientCall::Publish(
                PublishCall {
                    topic: c.topic.clone(),
                    qos: c.qos,
                    retain: c.retain,
                    payload: bytes_clone(&c.payload),
                    properties: match &c.properties {
                        Some(p) => Some(p.clone()),
                        None => None,
                    },
                },
            ),
            MockClientCall::Subscribe(c) => MockClientCall::Subscribe(
                SubscribeCall {
                    topic: c.topic.clone(),
                    qos: c.qos,
                    properties: match &c.properties {
                        Some(p) => Some(p.clone()),
                        None => None,
                    },
                },
            ),
            MockClientCall::Unsubscribe(c) => MockClientCall::Unsubscribe(
                UnsubscribeCall {
                    topic: c.topic.clone(),
                    properties: match &c.properties {
                        Some(p) => Some(p.clone()),
                        None => None,
                    },
                },
            ),
            MockClientCall::Ack(c) => MockClientCall::Ack(AckCall { publish: c.publish.clone() }),
        }
    }
}

/// What the calls stand for.
pub open spec fn calls_view(calls: Seq<MockClientCall>) -> Seq<CallView> {
    calls.map_values(|c: MockClientCall| c@)
}

/// How many of the calls publish.
pub open spec fn publishes(calls: Seq<CallView>) -> nat
    decreases calls.len(),
{
    if calls.len() == 0 {
        0
    } else {
        publishes(calls.drop_last()) + if calls.last() is Publish {
            1nat
        } else {
            0nat
        }
    }
}

/// How many of the calls subscribe.
pub open spec fn subscribes(calls: Seq<CallView>) -> nat
    decreases calls.len(),
{
    if calls.len() == 0 {
        0
    } else {
        subscribes(calls.drop_last()) + if calls.last() is Subscribe {
            1nat
        } else {
            0nat
        }
    }
}

/// How many of the calls unsubscribe.
pub open spec fn unsubscribes(calls: Seq<CallView>) -> nat
    decreases calls.len(),
{
    if calls.len() == 0 {
        0
    } else {
        unsubscribes(calls.drop_last()) + if calls.last() is Unsubscribe {
            1nat
        } else {
            0nat
        }
    }
}

/// How many of the calls ack.
pub open spec fn acks(calls: Seq<CallView>) -> nat
    decreases calls.len(),
{
    if calls.len() == 0 {
        0
    } else {
        acks(calls.drop_last()) + if calls.last() is Ack {
            1nat
        } else {
            0nat
        }
    }
}

/// Every call is of exactly one sort: the counts add up to the number of calls.
pub proof fn law_counts_add_up(calls: Seq<CallView>)
    ensures
        publishes(calls) + subscribes(calls) + unsubscribes(calls) + acks(calls) == calls.len(),
    decreases calls.len(),
{
    if calls.len() > 0 {
        law_counts_add_up(calls.drop_last());
    }
}

/// Tracks call information for a [`MockClient`] instance.
#[derive(Debug)]
pub struct MockClientController {
    call_sequence: Vec<MockClientCall>,
}

impl View for MockClientController {
    type V = Seq<CallView>;

    /// The calls made so far.
    closed spec fn view(&self) -> Seq<CallView> {
        calls_view(self.call_sequence@)
    }
}

impl MockClientController {
    /// Return the number of `.publish()` calls made to the client.
    #[must_use]
    pub fn publish_count(&self) -> (r: usize)
        ensures
            r == publishes(self@),
    {
        let mut count: usize = 0;
        for i in 0..self.call_sequence.len()
            invariant
                count == publishes(self@.take(i as int)),
                count <= i,
        {
            assert(self@.take(i + 1).drop_last() =~= self@.take(i as int));
            assert(self@.take(i + 1).last() == self.call_sequence@[i as int]@);
            if let MockClientCall::Publish(_) = &self.call_sequence[i] {
                count = count + 1;
            }
        }
        assert(self@.take(self@.len() as int) =~= self@);
        count
    }

    /// Return the number of `.subscribe()` calls made to the client.
    #[must_use]
    pub fn subscribe_count(&self) -> (r: usize)
        ensures
            r == subscribes(self@),
    {
        let mut count: usize = 0;
        for i in 0..self.call_sequence.len()
            invariant
                count == subscribes(self@.take(i as int)),
                count <= i,
        {
            assert(self@.take(i + 1).drop_last() =~= self@.take(i as int));
            assert(self@.take(i + 1).last() == self.call_sequence@[i as int]@);
            if let MockClientCall::Subscribe(_) = &self.call_sequence[i] {
                count = count + 1;
            }
        }
        assert(self@.take(self@.len() as int) =~= self@);
        count
    }

    /// Return the number of `.unsubscribe()` calls made to the client.
    #[must_use]
    pub fn unsubscribe_count(&self) -> (r: usize)
        ensures
            r == unsubscribes(self@),
    {
        let mut count: usize = 0;
        for i in 0..self.call_sequence.len()
            invariant
                count == unsubscribes(self@.take(i as int)),
                count <= i,
        {
            assert(self@.take(i + 1).drop_last() =~= self@.take(i as int));
            assert(self@.take(i + 1).last() == self.call_sequence@[i as int]@);
            if let MockClientCall::Unsubscribe(_) = &self.call_sequence[i] {
                count = count + 1;
            }
        }
        assert(self@.take(self@.len() as int) =~= self@);
        count
    }

    /// Return the number of `.ack()` calls made to the client.
    #[must_use]
    pub fn ack_count(&self) -> (r: usize)
        ensures
            r == acks(self@),
    {
        let mut count: usize = 0;
        for i in 0..self.call_sequence.len()
            invariant
                count == acks(self@.take(i as int)),
                count <= i,
        {
            assert(self@.take(i + 1).drop_last() =~= self@.take(i as int));
            assert(self@.take(i + 1).last() == self.call_sequence@[i as int]@);
            if let MockClientCall::Ack(_) = &self.call_sequence[i] {
                count = count + 1;
            }
        }
        assert(self@.take(self@.len() as int) =~= self@);
        count
    }

    /// Return a snapshot of the sequence of calls made to the mocked client so far
    #[must_use]
    pub fn call_sequence(&self) -> (r: Vec<MockClientCall>)
        ensures
            calls_view(r@) == self@,
    {
        let mut r: Vec<MockClientCall> = Vec::new();
        for i in 0..self.call_sequence.len()
            invariant
                calls_view(r@) == self@.take(i as int),
        {
            let ghost before = r@;
            r.push(self.call_sequence[i].clone());
            assert(calls_view(r@) =~= calls_view(before).push(self.call_sequence@[i as int]@));
            assert(self@.take(i + 1) =~= self@.take(i as int).push(self@[i as int]));
        }
        assert(self@.take(self@.len() as int) =~= self@);
        r
    }

    /// Reset the mock, clearing all prior call information and/or configuration
    pub fn reset_mock(&mut self)
        ensures
            final(self)@ == Seq::<CallView>::empty(),
    {
        self.call_sequence = Vec::new();
        assert(self@ =~= Seq::<CallView>::empty());
    }

    /// Record a call.
    fn record(&mut self, call: MockClientCall)
        ensures
            final(self)@ == old(self)@.push(call@),
    {
        let ghost made = call@;
        self.call_sequence.push(call);
        assert(self@ =~= old(self)@.push(made));
    }
}

/// Mock implementation of an MQTT client.
///
/// Currently always succeeds on all operations.
#[derive(Debug)]
pub struct MockClient {
    controller: MockClientController,
}

impl View for MockClient {
    type V = Seq<CallView>;

    /// The calls made so far.
    closed spec fn view(&self) -> Seq<CallView> {
        self.controller@
    }
}

impl MockClient {
    /// Return a new mocked MQTT client.
    #[must_use]
    pub fn new() -> (r: Self)
        ensures
            r@ == Seq::<CallView>::empty(),
    {
        let controller = MockClientController { call_sequence: Vec::new() };
        assert(controller@ =~= Seq::<CallView>::empty());
        MockClient { controller }
    }

    /// Return the monitor that tracks the calls to this client
    pub fn mock_controller(&mut self) -> (r: &mut MockClientController)
        ensures
            r@ == old(self)@,
            final(self)@ == final(r)@,
    {
        &mut self.controller
    }

    /// MQTT Publish
    ///
    /// # Errors
    /// Never.
    pub fn publish(&mut self, topic: String, qos: QoS, retain: bool, payload: Bytes) -> (r: Result<
        (),
        PublishError,
    >)
        ensures
            r is Ok,
            final(self)@ == old(self)@.push(
                CallView::Publish(topic@, qos, retain, bytes_data::contents(payload), None),
            ),
    {
        self.controller.record(
            MockClientCall::Publish(
                PublishCall { topic, qos, retain, payload, properties: None },
            ),
        );
        Ok(())
    }

    /// MQTT Publish
    ///
    /// # Errors
    /// Never.
    pub fn publish_with_properties(
        &mut self,
        topic: String,
        qos: QoS,
        retain: bool,
        payload: Bytes,
        properties: PublishProperties,
    ) -> (r: Result<(), PublishError>)
        ensures
            r is Ok,
            final(self)@ == old(self)@.push(
                CallView::Publish(
                    topic@,
                    qos,
                    retain,
                    bytes_data::contents(payload),
                    Some(properties@),
                ),
            ),
    {
        self.controller.record(
            MockClientCall::Publish(
                PublishCall { topic, qos, retain, payload, properties: Some(properties) },
            ),
        );
        Ok(())
    }

    /// MQTT Subscribe
    ///
    /// # Errors
    /// Never.
    pub fn subscribe(&mut self, topic: String, qos: QoS) -> (r: Result<(), SubscribeError>)
        ensures
            r is Ok,
            final(self)@ == old(self)@.push(CallView::Subscribe(topic@, qos, None)),
    {
        self.controller.record(
            MockClientCall::Subscribe(SubscribeCall { topic, qos, properties: None }),
        );
        Ok(())
    }

    /// MQTT Subscribe
    ///
    /// # Errors
    /// Never.
    pub fn subscribe_with_properties(
        &mut self,
        topic: String,
        qos: QoS,
        properties: SubscribeProperties,
    ) -> (r: Result<(), SubscribeError>)
        ensures
            r is Ok,
            final(self)@ == old(self)@.push(CallView::Subscribe(topic@, qos, Some(properties@))),
    {
        self.controller.record(
            MockClientCall::Subscribe(SubscribeCall { topic, qos, properties: Some(properties) }),
        );
        Ok(())
    }

    /// MQTT Unsubscribe
    ///
    /// # Errors
    /// Never.
    pub fn unsubscribe(&mut self, topic: String) -> (r: Result<(), UnsubscribeError>)
        ensures
            r is Ok,
            final(self)@ == old(self)@.push(CallView::Unsubscribe(topic@, None)),
    {
        self.controller.record(
            MockClientCall::Unsubscribe(UnsubscribeCall { topic, properties: None }),
        );
        Ok(())
    }

    /// MQTT Unsubscribe
    ///
    /// # Errors
    /// Never.
    pub fn unsubscribe_with_properties(
        &mut self,
        topic: String,
        properties: UnsubscribeProperties,
    ) -> (r: Result<(), UnsubscribeError>)
        ensures
            r is Ok,
            final(self)@ == old(self)@.push(CallView::Unsubscribe(topic@, Some(properties@))),
    {
        self.controller.record(
            MockClientCall::Unsubscribe(UnsubscribeCall { topic, properties: Some(properties) }),
        );
        Ok(())
    }

    /// Acknowledge a received Publish.
    ///
    /// # Errors
    /// Never.
    pub fn ack(&mut self, publish: &Publish) -> (r: Result<(), AckError>)
        ensures
            r is Ok,
            final(self)@ == old(self)@.push(CallView::Ack(publish@)),
    {
        self.controller.record(MockClientCall::Ack(AckCall { publish: publish.clone() }));
        Ok(())
    }

    /// Disconnect from the MQTT broker.
    ///
    /// # Errors
    /// Never.
    pub fn disconnect(&self) -> (r: Result<(), DisconnectError>)
        ensures
            r is Ok,
    {
        Ok(())
    }

    /// Reauthenticate with the MQTT broker
    ///
    /// # Errors
    /// Never.
    pub fn reauth(&self) -> (r: Result<(), ReauthError>)
        ensures
            r is Ok,
    {
        Ok(())
    }
}

/// The counts are those of the calls of each sort.
pub proof fn law_calls_of_each_sort_are_counted(calls: Seq<CallView>)
    ensures
        publishes(calls) == calls.filter(|c: CallView| c is Publish).len(),
        subscribes(calls) == calls.filter(|c: CallView| c is Subscribe).len(),
        unsubscribes(calls) == calls.filter(|c: CallView| c is Unsubscribe).len(),
        acks(calls) == calls.filter(|c: CallView| c is Ack).len(),
    decreases calls.len(),
{
    reveal(Seq::filter);
    if calls.len() > 0 {
        law_calls_of_each_sort_are_counted(calls.drop_last());
    }
}

} // verus!
