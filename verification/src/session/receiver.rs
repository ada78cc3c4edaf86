//! Tooling for sending/receiving publishes to/on multiple receivers which can be distributed in async contexts.

pub mod ack_run;
pub mod dispatch_laws;
pub mod dispatched_acks;
pub mod ordered_acker;
pub mod plenary_ack;

use tokio::sync::mpsc::{unbounded_channel, UnboundedReceiver, UnboundedSender};
use vstd::prelude::*;
use vstd::string::StringExecFns;

use crate::bytes_data::bytes_to_vec;
use crate::control_packet::{self, Publish, QoS};
use crate::mask::{self, retain_where};
use crate::session::receiver::dispatched_acks::DispatchedAcks;
use crate::session::receiver::ordered_acker::{AckTurn, PkidAckQueue, PkidError};
use crate::session::receiver::plenary_ack::{PlenaryAck, PlenaryAckMember};
use crate::text::utf8_text;
use crate::topic::{self, TopicFilter, TopicName, TopicParseError};

verus! {

/// Token that can be used to acknowledge a received MQTT publish.
#[derive(Debug)]
pub struct AckToken(PlenaryAckMember);

impl View for AckToken {
    type V = u16;

    /// The PKID of the publish.
    closed spec fn view(&self) -> u16 {
        self.0@
    }
}

impl AckToken {
    /// The PKID of the publish that the token acknowledges.
    pub fn pkid(&self) -> (r: u16)
        ensures
            r == self@,
    {
        self.0.pkid()
    }
}

/// The sending half of an unbounded channel of the `tokio` crate.
#[verifier::external_type_specification]
#[verifier::external_body]
#[verifier::reject_recursive_types(T)]
pub struct ExUnboundedSender<T>(UnboundedSender<T>);

/// The receiving half of an unbounded channel of the `tokio` crate.
#[verifier::external_type_specification]
#[verifier::external_body]
#[verifier::reject_recursive_types(T)]
pub struct ExUnboundedReceiver<T>(UnboundedReceiver<T>);

// NOTE: We need to use unbounded channels, because there is no way to know how many
// publishes may be in-flight. The MQTT client can specify a receive_maximum, yes,
// but that only applies to QoS1 and QoS2. There is no limit on QoS0.
pub type PublishTx = UnboundedSender<(Publish, Option<AckToken>)>;

pub type PublishRx = UnboundedReceiver<(Publish, Option<AckToken>)>;

/// What is sent to a receiver: a publish, and the PKID of its token if it has one.
pub type Message = (control_packet::PublishView, Option<u16>);

/// The PKID of an optional token.
pub open spec fn token_pkid(token: Option<AckToken>) -> Option<u16> {
    match token {
        Some(t) => Some(t@),
        None => None,
    }
}

/// The messages that a channel has accepted from this sender, in order.
pub uninterp spec fn accepted(
    tx: UnboundedSender<(Publish, Option<AckToken>)>,
) -> Seq<(control_packet::PublishView, Option<u16>)>;

/// The channel that a sender sends to.
pub uninterp spec fn sender_channel(tx: UnboundedSender<(Publish, Option<AckToken>)>) -> int;

/// The channel that a receiver receives from.
pub uninterp spec fn receiver_channel(rx: UnboundedReceiver<(Publish, Option<AckToken>)>) -> int;

/// Whether the last call on this sender that found out, a send or a question, found that the receiver
/// is gone or has closed the channel.
pub uninterp spec fn found_closed(tx: UnboundedSender<(Publish, Option<AckToken>)>) -> bool;

/// Calls `unbounded_channel`: the two halves of a new channel, to which nothing has been sent.
#[verifier::external_body]
fn open_channel() -> (r: (PublishTx, PublishRx))
    ensures
        accepted(r.0) == Seq::<Message>::empty(),
        sender_channel(r.0) == receiver_channel(r.1),
{
    unbounded_channel()
}

/// Calls `UnboundedSender::send`: the channel accepts the message, or hands it back. It hands it back
/// if and only if it found that the receiver is gone or has closed the channel. Which of the two
/// comes is not stated: it depends on the receiver. The sender still sends to the same channel.
#[verifier::external_body]
fn send(tx: &mut PublishTx, publish: Publish, token: Option<AckToken>) -> (r: Result<
    (),
    (Publish, Option<AckToken>),
>)
    ensures
        r is Ok <==> !found_closed(*final(tx)),
        r is Ok ==> accepted(*final(tx)) == accepted(*old(tx)).push((publish@, token_pkid(token))),
        r is Err ==> accepted(*final(tx)) == accepted(*old(tx)),
        sender_channel(*final(tx)) == sender_channel(*old(tx)),
        r matches Err(m) ==> m.0@ == publish@ && token_pkid(m.1) == token_pkid(token),
{
    tx.send((publish, token)).map_err(|e| e.0)
}

/// Calls `UnboundedSender::is_closed`: whether it found that the receiver is gone or has closed the
/// channel. Which of the two comes is not stated: it depends on the receiver. Nothing is sent, and
/// the sender still sends to the same channel.
#[verifier::external_body]
fn is_closed(tx: &mut PublishTx) -> (r: bool)
    ensures
        r <==> found_closed(*final(tx)),
        accepted(*final(tx)) == accepted(*old(tx)),
        sender_channel(*final(tx)) == sender_channel(*old(tx)),
{
    tx.is_closed()
}

/// What a sender stands for.
#[verifier::ext_equal]
pub struct TxView {
    /// The channel that it sends to.
    pub channel: int,
    /// The messages that the channel has accepted from it.
    pub accepted: Seq<Message>,
}

impl TxView {
    /// The sender after the channel accepted one more message.
    pub open spec fn sent(self, message: Message) -> TxView {
        TxView { accepted: self.accepted.push(message), ..self }
    }
}

/// What a sender stands for.
pub open spec fn tx_view(tx: PublishTx) -> TxView {
    TxView { channel: sender_channel(tx), accepted: accepted(tx) }
}

/// Whether a sender is new, and sends to the channel of the receiver.
pub open spec fn is_new_sender_to(tx: TxView, rx: PublishRx) -> bool {
    tx == TxView { channel: receiver_channel(rx), accepted: Seq::empty() }
}

/// A sender to a receiver of the publishes that match a topic filter.
pub struct FilteredTx {
    pub topic_filter: TopicFilter,
    pub tx: PublishTx,
}

/// What a [`FilteredTx`] stands for.
#[verifier::ext_equal]
pub struct FilteredView {
    pub topic_filter: Seq<char>,
    pub tx: TxView,
}

impl View for FilteredTx {
    type V = FilteredView;

    open spec fn view(&self) -> FilteredView {
        FilteredView { topic_filter: self.topic_filter@, tx: tx_view(self.tx) }
    }
}

/// What the filtered senders stand for.
pub open spec fn filtered_view(txs: Seq<FilteredTx>) -> Seq<FilteredView> {
    txs.map_values(|e: FilteredTx| e@)
}

/// What the unfiltered senders stand for.
pub open spec fn unfiltered_view(txs: Seq<PublishTx>) -> Seq<TxView> {
    txs.map_values(|tx: PublishTx| tx_view(tx))
}

/// Whether the senders were asked whether they are closed, and the flags tell which were found open.
pub open spec fn is_asked(
    before: Seq<FilteredTx>,
    asked: Seq<FilteredTx>,
    open: Seq<bool>,
) -> bool {
    &&& before.len() == asked.len() == open.len()
    &&& filtered_view(asked) == filtered_view(before)
    &&& forall|i: int|
        0 <= i < asked.len() ==> (#[trigger] open[i] <==> !found_closed(asked[i].tx))
}

/// Whether the senders that were found closed were removed, and just those.
pub open spec fn is_pruned(before: Seq<FilteredTx>, after: Seq<FilteredTx>) -> bool {
    exists|asked: Seq<FilteredTx>, open: Seq<bool>| #[trigger]
        is_asked(before, asked, open) && after == mask::keep_where(asked, open)
}

/// The senders to all receivers of publishes.
pub struct PublishReceiverManager {
    /// Senders to the filtered receivers, in the order in which they were created. Several may have
    /// the same topic filter.
    pub filtered_txs: Vec<FilteredTx>,
    /// Senders to the unfiltered receivers, in the order in which they were created.
    pub unfiltered_txs: Vec<PublishTx>,
}

impl Default for PublishReceiverManager {
    fn default() -> (r: Self)
        ensures
            r.filtered_txs@ == Seq::<FilteredTx>::empty(),
            r.unfiltered_txs@ == Seq::<PublishTx>::empty(),
    {
        PublishReceiverManager { filtered_txs: Vec::new(), unfiltered_txs: Vec::new() }
    }
}

impl PublishReceiverManager {
    /// Create a new [`PublishRx`] that will receive dispatched [`Publish`]es that match the
    /// provided topic filter for as long as it is open.
    ///
    /// Multiple receivers can be created for the same topic filter, or with overlapping wildcard
    /// topic filters. Each receiver will receive all publishes that match the topic filter.
    ///
    /// Filtered receivers that are found closed are removed first.
    ///
    /// # Arguments
    /// * `topic_filter` - The topic filter to match incoming publishes against
    pub fn create_filtered_receiver(&mut self, topic_filter: &TopicFilter) -> (rx: PublishRx)
        ensures
            is_pruned(old(self).filtered_txs@, final(self).filtered_txs@.drop_last()),
            final(self).filtered_txs@.len() > 0,
            final(self).filtered_txs@.last().topic_filter@ == topic_filter@,
            is_new_sender_to(tx_view(final(self).filtered_txs@.last().tx), rx),
            final(self).unfiltered_txs@ == old(self).unfiltered_txs@,
    {
        // NOTE: We prune the filtered txs before registering any more to ensure that closed
        // txs don't stick around indefinitely, making dispatching more expensive. We also do cleanup
        // during a dispatch, but since dispatching only looks at the elements that are relevant to a
        // given dispatch (i.e. lazy pruning), we still need to do a full pruning when registering
        // new tx filters.
        self.prune_filtered_txs();
        let ghost pruned = self.filtered_txs@;
        let (tx, rx) = open_channel();
        self.filtered_txs.push(FilteredTx { topic_filter: topic_filter.clone(), tx });
        assert(self.filtered_txs@.drop_last() =~= pruned);
        rx
    }

    /// Create a new [`PublishRx`] that will receive all dispatched [`Publish`]es that do not
    /// match the topic filters for any other filtered [`PublishRx`]s, for as long as it
    /// is open.
    ///
    /// Multiple unfiltered receivers can be created, and each will receive all publishes that are
    /// not matched by any filtered receiver.
    pub fn create_unfiltered_receiver(&mut self) -> (rx: PublishRx)
        ensures
            final(self).unfiltered_txs@.len() > 0,
            final(self).unfiltered_txs@.drop_last() == old(self).unfiltered_txs@,
            is_new_sender_to(tx_view(final(self).unfiltered_txs@.last()), rx),
            final(self).filtered_txs@ == old(self).filtered_txs@,
    {
        // NOTE: unlike when creating a filtered receiver, we don't need to prune the
        // vector of any closed unfiltered txs here. The lazy cleanup during dispatch is sufficient.
        let (tx, rx) = open_channel();
        self.unfiltered_txs.push(tx);
        assert(self.unfiltered_txs@.drop_last() =~= old(self).unfiltered_txs@);
        rx
    }

    /// Remove any closed filtered receivers.
    fn prune_filtered_txs(&mut self)
        ensures
            is_pruned(old(self).filtered_txs@, final(self).filtered_txs@),
            final(self).unfiltered_txs@ == old(self).unfiltered_txs@,
    {
        let mut open: Vec<bool> = Vec::new();
        let n = self.filtered_txs.len();
        let ghost before = self.filtered_txs@;
        for i in 0..n
            invariant
                n == self.filtered_txs@.len() == before.len(),
                before == old(self).filtered_txs@,
                self.unfiltered_txs@ == old(self).unfiltered_txs@,
                open@.len() == i,
                forall|j: int| 0 <= j < n ==> (#[trigger] self.filtered_txs@[j])@ == before[j]@,
                forall|j: int|
                    0 <= j < i ==> (#[trigger] open@[j] <==> !found_closed(
                        self.filtered_txs@[j].tx,
                    )),
        {
            let ghost txs_before = self.filtered_txs@;
            assert(self.filtered_txs@[i as int]@ == before[i as int]@);
            open.push(!is_closed(&mut self.filtered_txs[i].tx));
            proof {
                assert forall|j: int| 0 <= j < n && j != i implies self.filtered_txs@[j]
                    == #[trigger] txs_before[j] by {}
                assert(self.filtered_txs@[i as int]@ =~= before[i as int]@);
            }
        }
        proof {
            assert(filtered_view(self.filtered_txs@) =~= filtered_view(before));
            assert(is_asked(before, self.filtered_txs@, open@));
        }
        self.retain_filtered(&open);
    }

    /// Keep the filtered receivers that are open, and remove the others.
    ///
    /// # Arguments
    /// * `open` - Whether each of the filtered receivers is open
    pub fn retain_filtered(&mut self, open: &Vec<bool>)
        requires
            open@.len() == old(self).filtered_txs@.len(),
        ensures
            final(self).filtered_txs@ == mask::keep_where(old(self).filtered_txs@, open@),
            final(self).unfiltered_txs@ == old(self).unfiltered_txs@,
    {
        retain_where(&mut self.filtered_txs, open);
    }
}

/// Why a publish cannot be dispatched.
///
/// NOTE: These errors should never happen in correct usage.
/// - Invalid publish topics should not happen, since we shouldn't be receiving Publishes from the
/// broker that are invalid.
/// - Invalid publish PKIDs should not happen, as PKIDs should not be re-used until the previous
/// PKID has been acked.
#[derive(Clone, Copy, Debug, PartialEq, Eq, Structural)]
pub enum DispatchError {
    /// Could not get topic from publish
    InvalidPublishTopic(InvalidPublish),
    /// Packet ID for publish invalid
    InvalidPublishPkid(PkidError),
}

/// Why a publish has no topic name.
#[derive(Clone, Copy, Debug, PartialEq, Eq, Structural)]
pub enum InvalidPublish {
    /// Invalid UTF-8
    TopicNameUtf8,
    /// Invalid topic
    TopicNameFormat(TopicParseError),
}

impl InvalidPublish {
    /// The message that describes the error.
    pub open spec fn message(self) -> Seq<char> {
        match self {
            InvalidPublish::TopicNameUtf8 => "invalid UTF-8"@,
            InvalidPublish::TopicNameFormat(e) => "invalid topic: "@ + e.message(),
        }
    }

    /// The message that describes the error.
    pub fn to_string(&self) -> (r: String)
        ensures
            r@ == self.message(),
    {
        match self {
            InvalidPublish::TopicNameUtf8 => "invalid UTF-8".to_string(),
            InvalidPublish::TopicNameFormat(e) => {
                "invalid topic: ".to_string().concat(e.to_string().as_str())
            },
        }
    }
}

impl DispatchError {
    /// The message that describes the error.
    pub open spec fn message(self) -> Seq<char> {
        match self {
            DispatchError::InvalidPublishTopic(e) => {
                "could not get topic from publish: "@ + e.message()
            },
            DispatchError::InvalidPublishPkid(e) => {
                "packet ID for publish invalid: "@ + e.message()
            },
        }
    }

    /// The message that describes the error.
    pub fn to_string(&self) -> (r: String)
        ensures
            r@ == self.message(),
    {
        match self {
            DispatchError::InvalidPublishTopic(e) => {
                "could not get topic from publish: ".to_string().concat(e.to_string().as_str())
            },
            DispatchError::InvalidPublishPkid(e) => {
                "packet ID for publish invalid: ".to_string().concat(e.to_string().as_str())
            },
        }
    }
}

/// The topic name of a publish, or why it has none.
pub open spec fn publish_topic(topic: Seq<u8>) -> Result<Seq<char>, InvalidPublish> {
    if !vstd::utf8::valid_utf8(topic) {
        Err(InvalidPublish::TopicNameUtf8)
    } else {
        match topic::topic_name_fault(vstd::utf8::decode_utf8(topic)) {
            Some(e) => Err(InvalidPublish::TopicNameFormat(e)),
            None => Ok(vstd::utf8::decode_utf8(topic)),
        }
    }
}

/// The topic name of a publish.
fn extract_publish_topic_name(publish: &Publish) -> (r: Result<TopicName, InvalidPublish>)
    ensures
        match publish_topic(publish@.topic) {
            Ok(name) => r is Ok && r->Ok_0@ == name,
            Err(e) => r == Err::<TopicName, InvalidPublish>(e),
        },
{
    match utf8_text(bytes_to_vec(&publish.topic)) {
        None => Err(InvalidPublish::TopicNameUtf8),
        Some(text) => match TopicName::from_string(text) {
            Ok(name) => Ok(name),
            Err(e) => Err(InvalidPublish::TopicNameFormat(e)),
        },
    }
}

/// A token for one more receiver of a publish, if the publish is to be acked at all.
fn create_ack_token(plenary_ack: &mut Option<PlenaryAck>) -> (r: Option<AckToken>)
    requires
        *old(plenary_ack) matches Some(p) ==> p@.outstanding < usize::MAX,
    ensures
        *old(plenary_ack) is None ==> r is None && *final(plenary_ack) is None,
        *old(plenary_ack) matches Some(p) ==> {
            &&& r is Some
            &&& r->0@ == p@.pkid
            &&& *final(plenary_ack) is Some
            &&& final(plenary_ack)->0@ == plenary_ack::PlenaryAckView {
                outstanding: p@.outstanding + 1,
                ..p@
            }
        },
{
    match plenary_ack {
        Some(p) => Some(AckToken(p.create_member())),
        None => None,
    }
}

/// A token is no longer needed, as its receiver did not get it.
fn discard_ack_token(plenary_ack: &mut Option<PlenaryAck>)
    requires
        *old(plenary_ack) matches Some(p) ==> p@.outstanding > 0,
    ensures
        *old(plenary_ack) is None ==> *final(plenary_ack) is None,
        *old(plenary_ack) matches Some(p) ==> *final(plenary_ack) is Some
            && final(plenary_ack)->0@ == p@.member_done(),
{
    match plenary_ack {
        Some(p) => {
            p.member_done();
        },
        None => {},
    }
}

/// The message that receivers of a publish are sent.
pub open spec fn message_of(publish: control_packet::PublishView) -> Message {
    (
        publish,
        if publish.qos == QoS::AtMostOnce {
            None
        } else {
            Some(publish.pkid)
        },
    )
}

/// Which filtered receivers a publish reaches: those whose filter matches and that are open.
pub open spec fn filtered_reached(
    txs: Seq<FilteredView>,
    name: Seq<char>,
    open: Seq<bool>,
) -> Seq<bool> {
    Seq::new(txs.len(), |i: int| topic::topic_matches(txs[i].topic_filter, name) && open[i])
}

/// The filtered receivers after a publish was sent to those that it reaches, and those found closed
/// were removed.
pub open spec fn filtered_after(
    txs: Seq<FilteredView>,
    name: Seq<char>,
    message: Message,
    open: Seq<bool>,
) -> Seq<FilteredView> {
    mask::keep_where(
        Seq::new(
            txs.len(),
            |i: int|
                if filtered_reached(txs, name, open)[i] {
                    FilteredView { tx: txs[i].tx.sent(message), ..txs[i] }
                } else {
                    txs[i]
                },
        ),
        open,
    )
}

/// Whether the flags tell of each filtered receiver whether it is open. Only those whose filter
/// matches are asked.
pub open spec fn answers_of_matching(
    txs: Seq<FilteredView>,
    name: Seq<char>,
    open: Seq<bool>,
) -> bool {
    &&& open.len() == txs.len()
    &&& forall|i: int|
        0 <= i < txs.len() && !topic::topic_matches(txs[i].topic_filter, name)
            ==> #[trigger] open[i]
}

/// The unfiltered receivers after a publish was sent to those that are open, and the others were
/// removed.
pub open spec fn unfiltered_after(
    txs: Seq<TxView>,
    message: Message,
    open: Seq<bool>,
) -> Seq<TxView> {
    mask::keep_where(
        Seq::new(
            txs.len(),
            |i: int|
                if open[i] {
                    txs[i].sent(message)
                } else {
                    txs[i]
                },
        ),
        open,
    )
}

/// Whether a sender was offered a message: either the channel accepted it, or it was found closed.
pub open spec fn is_offered(
    before: PublishTx,
    after: PublishTx,
    message: Message,
    open: bool,
) -> bool {
    &&& open <==> !found_closed(after)
    &&& tx_view(after) == if open {
        tx_view(before).sent(message)
    } else {
        tx_view(before)
    }
}

/// Whether each filtered sender whose filter matches was offered a message, and the others were left
/// alone.
pub open spec fn is_tried(
    before: Seq<FilteredTx>,
    tried: Seq<FilteredTx>,
    name: Seq<char>,
    message: Message,
    open: Seq<bool>,
) -> bool {
    &&& before.len() == tried.len() == open.len()
    &&& forall|i: int|
        0 <= i < before.len() ==> if topic::topic_matches(
            (#[trigger] before[i]).topic_filter@,
            name,
        ) {
            &&& tried[i].topic_filter == before[i].topic_filter
            &&& is_offered(before[i].tx, tried[i].tx, message, open[i])
        } else {
            tried[i] == before[i] && open[i]
        }
}

/// Whether each unfiltered sender was offered a message.
pub open spec fn is_tried_unfiltered(
    before: Seq<PublishTx>,
    tried: Seq<PublishTx>,
    message: Message,
    open: Seq<bool>,
) -> bool {
    &&& before.len() == tried.len() == open.len()
    &&& forall|i: int|
        0 <= i < before.len() ==> is_offered(#[trigger] before[i], tried[i], message, open[i])
}

/// Whether the filtered senders were tried with a message, and those that were found closed were
/// removed.
pub open spec fn is_filtered_dispatch(
    before: Seq<FilteredTx>,
    after: Seq<FilteredTx>,
    name: Seq<char>,
    message: Message,
    open: Seq<bool>,
) -> bool {
    exists|tried: Seq<FilteredTx>| #[trigger]
        is_tried(before, tried, name, message, open) && after == mask::keep_where(tried, open)
}

/// Whether the unfiltered senders were tried with a message, and those that were found closed were
/// removed.
pub open spec fn is_unfiltered_dispatch(
    before: Seq<PublishTx>,
    after: Seq<PublishTx>,
    message: Message,
    open: Seq<bool>,
) -> bool {
    exists|tried: Seq<PublishTx>| #[trigger]
        is_tried_unfiltered(before, tried, message, open) && after == mask::keep_where(tried, open)
}

/// How far a publish was dispatched.
pub struct Dispatches {
    /// The number of receivers that it was dispatched to.
    pub count: usize,
    /// Of each receiver, whether it was not found closed.
    pub open: Vec<bool>,
}

/// The plenary ack after its publish was sent to `count` more receivers.
pub open spec fn with_members(
    ack: Option<plenary_ack::PlenaryAckView>,
    count: nat,
) -> Option<plenary_ack::PlenaryAckView> {
    match ack {
        Some(a) => Some(
            plenary_ack::PlenaryAckView { outstanding: a.outstanding + count, ..a },
        ),
        None => None,
    }
}

/// What an optional plenary ack stands for.
pub open spec fn opt_ack(ack: Option<PlenaryAck>) -> Option<plenary_ack::PlenaryAckView> {
    match ack {
        Some(a) => Some(a@),
        None => None,
    }
}

/// Whether a plenary ack is the one to use for a publish: none for QoS 0, and else one for the PKID
/// of the publish that has no members yet.
pub open spec fn is_ack_for(
    ack: Option<plenary_ack::PlenaryAckView>,
    publish: control_packet::PublishView,
) -> bool {
    ack == if publish.qos == QoS::AtMostOnce {
        None
    } else {
        Some(
            plenary_ack::PlenaryAckView { pkid: publish.pkid, outstanding: 0, commenced: false },
        )
    }
}

impl PublishReceiverManager {
    /// Dispatch to filtered receivers
    ///
    /// Receivers whose filter matches and that are found closed are removed.
    pub fn dispatch_filtered(
        &mut self,
        topic_name: &TopicName,
        publish: &Publish,
        plenary_ack: &mut Option<PlenaryAck>,
    ) -> (r: Dispatches)
        requires
            is_ack_for(opt_ack(*old(plenary_ack)), publish@),
        ensures
            is_filtered_dispatch(
                old(self).filtered_txs@,
                final(self).filtered_txs@,
                topic_name@,
                message_of(publish@),
                r.open@,
            ),
            answers_of_matching(filtered_view(old(self).filtered_txs@), topic_name@, r.open@),
            r.count == mask::count_set(
                filtered_reached(filtered_view(old(self).filtered_txs@), topic_name@, r.open@),
            ),
            filtered_view(final(self).filtered_txs@) == filtered_after(
                filtered_view(old(self).filtered_txs@),
                topic_name@,
                message_of(publish@),
                r.open@,
            ),
            final(self).unfiltered_txs@ == old(self).unfiltered_txs@,
            opt_ack(*final(plenary_ack)) == with_members(
                opt_ack(*old(plenary_ack)),
                r.count as nat,
            ),
    {
        let mut count: usize = 0;
        let mut open: Vec<bool> = Vec::new();
        let n = self.filtered_txs.len();
        let ghost txs = self.filtered_txs@;
        let ghost before = filtered_view(txs);
        let ghost message = message_of(publish@);
        let ghost ack_before = opt_ack(*plenary_ack);
        let ghost mut reached: Seq<bool> = Seq::empty();
        for i in 0..n
            invariant
                n == self.filtered_txs@.len() == before.len(),
                txs == old(self).filtered_txs@,
                before == filtered_view(txs),
                message == message_of(publish@),
                self.unfiltered_txs@ == old(self).unfiltered_txs@,
                is_ack_for(ack_before, publish@),
                open@.len() == reached.len() == i,
                forall|j: int|
                    0 <= j < i ==> #[trigger] reached[j] == (topic::topic_matches(
                        before[j].topic_filter,
                        topic_name@,
                    ) && open@[j]),
                forall|j: int|
                    0 <= j < i && !topic::topic_matches(before[j].topic_filter, topic_name@)
                        ==> #[trigger] open@[j],
                forall|j: int|
                    0 <= j < i ==> #[trigger] self.filtered_txs@[j]@ == if reached[j] {
                        FilteredView { tx: before[j].tx.sent(message), ..before[j] }
                    } else {
                        before[j]
                    },
                forall|j: int| i <= j < n ==> #[trigger] self.filtered_txs@[j] == txs[j],
                forall|j: int|
                    0 <= j < i ==> if topic::topic_matches(
                        (#[trigger] txs[j]).topic_filter@,
                        topic_name@,
                    ) {
                        &&& self.filtered_txs@[j].topic_filter == txs[j].topic_filter
                        &&& is_offered(txs[j].tx, self.filtered_txs@[j].tx, message, open@[j])
                    } else {
                        self.filtered_txs@[j] == txs[j] && open@[j]
                    },
                count == mask::count_set(reached),
                count <= i,
                opt_ack(*plenary_ack) == with_members(ack_before, count as nat),
        {
            let ghost reached_before = reached;
            let ghost txs_before = self.filtered_txs@;
            assert(self.filtered_txs@[i as int] == txs[i as int]);
            assert(txs[i as int]@ == before[i as int]);
            if self.filtered_txs[i].topic_filter.matches_topic_name(topic_name) {
                // Send the publish to the receiver, along with an ack token
                // If the receiver is closed, mark it as closed to be removed after iteration.
                // NOTE: Removing closed receivers must be done dynamically because a channel can be
                // closed sometime during the execution of this loop.
                let token = create_ack_token(plenary_ack);
                match send(&mut self.filtered_txs[i].tx, publish.clone(), token) {
                    Ok(()) => {
                        count = count + 1;
                        open.push(true);
                        proof {
                            reached = reached.push(true);
                        }
                    },
                    Err(_) => {
                        discard_ack_token(plenary_ack);
                        open.push(false);
                        proof {
                            reached = reached.push(false);
                        }
                    },
                }
            } else {
                open.push(true);
                proof {
                    reached = reached.push(false);
                }
            }
            proof {
                assert(reached.drop_last() =~= reached_before);
                assert forall|j: int| 0 <= j < n && j != i implies self.filtered_txs@[j]
                    == #[trigger] txs_before[j] by {}
                assert(self.filtered_txs@[i as int]@ =~= if reached[i as int] {
                    FilteredView {
                        tx: before[i as int].tx.sent(message),
                        ..before[i as int]
                    }
                } else {
                    before[i as int]
                });
            }
        }
        proof {
            assert(reached =~= filtered_reached(before, topic_name@, open@));
            let sent = self.filtered_txs@;
            assert(is_tried(txs, sent, topic_name@, message, open@));
            mask::lemma_keep_where_map(sent, open@, |e: FilteredTx| e@);
            assert(filtered_view(sent) =~= Seq::new(
                before.len(),
                |i: int|
                    if filtered_reached(before, topic_name@, open@)[i] {
                        FilteredView { tx: before[i].tx.sent(message), ..before[i] }
                    } else {
                        before[i]
                    },
            ));
        }
        // Remove any closed receivers.
        self.retain_filtered(&open);
        Dispatches { count, open }
    }

    /// Dispatch to unfiltered receivers
    ///
    /// Receivers that are found closed are removed.
    pub fn dispatch_unfiltered(
        &mut self,
        publish: &Publish,
        plenary_ack: &mut Option<PlenaryAck>,
    ) -> (r: Dispatches)
        requires
            is_ack_for(opt_ack(*old(plenary_ack)), publish@),
        ensures
            is_unfiltered_dispatch(
                old(self).unfiltered_txs@,
                final(self).unfiltered_txs@,
                message_of(publish@),
                r.open@,
            ),
            r.open@.len() == old(self).unfiltered_txs@.len(),
            r.count == mask::count_set(r.open@),
            unfiltered_view(final(self).unfiltered_txs@) == unfiltered_after(
                unfiltered_view(old(self).unfiltered_txs@),
                message_of(publish@),
                r.open@,
            ),
            final(self).filtered_txs@ == old(self).filtered_txs@,
            opt_ack(*final(plenary_ack)) == with_members(
                opt_ack(*old(plenary_ack)),
                r.count as nat,
            ),
    {
        let mut count: usize = 0;
        let mut open: Vec<bool> = Vec::new();
        let n = self.unfiltered_txs.len();
        let ghost txs = self.unfiltered_txs@;
        let ghost before = unfiltered_view(txs);
        let ghost message = message_of(publish@);
        let ghost ack_before = opt_ack(*plenary_ack);
        for i in 0..n
            invariant
                n == self.unfiltered_txs@.len() == before.len(),
                txs == old(self).unfiltered_txs@,
                before == unfiltered_view(txs),
                message == message_of(publish@),
                self.filtered_txs@ == old(self).filtered_txs@,
                is_ack_for(ack_before, publish@),
                open@.len() == i,
                forall|j: int|
                    0 <= j < i ==> tx_view(#[trigger] self.unfiltered_txs@[j]) == if open@[j] {
                        before[j].sent(message)
                    } else {
                        before[j]
                    },
                forall|j: int| i <= j < n ==> #[trigger] self.unfiltered_txs@[j] == txs[j],
                forall|j: int|
                    0 <= j < i ==> is_offered(
                        #[trigger] txs[j],
                        self.unfiltered_txs@[j],
                        message,
                        open@[j],
                    ),
                count == mask::count_set(open@),
                count <= i,
                opt_ack(*plenary_ack) == with_members(ack_before, count as nat),
        {
            let ghost open_before = open@;
            let ghost txs_before = self.unfiltered_txs@;
            assert(self.unfiltered_txs@[i as int] == txs[i as int]);
            assert(tx_view(txs[i as int]) == before[i as int]);
            // Send the publish to the receiver, along with an ack token
            // If the receiver is closed, mark it as closed to be removed after iteration.
            let token = create_ack_token(plenary_ack);
            match send(&mut self.unfiltered_txs[i], publish.clone(), token) {
                Ok(()) => {
                    count = count + 1;
                    open.push(true);
                },
                Err(_) => {
                    discard_ack_token(plenary_ack);
                    open.push(false);
                },
            }
            proof {
                assert(open@.drop_last() =~= open_before);
                assert forall|j: int| 0 <= j < n && j != i implies self.unfiltered_txs@[j]
                    == #[trigger] txs_before[j] by {}
            }
        }
        proof {
            let sent = self.unfiltered_txs@;
            assert(is_tried_unfiltered(txs, sent, message, open@));
            mask::lemma_keep_where_map(sent, open@, |tx: PublishTx| tx_view(tx));
            assert(unfiltered_view(sent) =~= Seq::new(
                before.len(),
                |i: int|
                    if open@[i] {
                        before[i].sent(message)
                    } else {
                        before[i]
                    },
            ));
        }
        // Remove any closed receivers.
        retain_where(&mut self.unfiltered_txs, &open);
        Dispatches { count, open }
    }
}

/// What the senders of a [`PublishReceiverManager`] stand for.
#[verifier::ext_equal]
pub struct ManagerView {
    pub filtered: Seq<FilteredView>,
    pub unfiltered: Seq<TxView>,
}

impl View for PublishReceiverManager {
    type V = ManagerView;

    open spec fn view(&self) -> ManagerView {
        ManagerView {
            filtered: filtered_view(self.filtered_txs@),
            unfiltered: unfiltered_view(self.unfiltered_txs@),
        }
    }
}

impl ManagerView {
    /// The number of filtered receivers that a publish reaches.
    pub open spec fn filtered_count(self, name: Seq<char>, open: Seq<bool>) -> nat {
        mask::count_set(filtered_reached(self.filtered, name, open))
    }

    /// The number of receivers that a publish is dispatched to.
    pub open spec fn dispatch_count(
        self,
        name: Seq<char>,
        open_filtered: Seq<bool>,
        open_unfiltered: Seq<bool>,
    ) -> nat {
        if self.filtered_count(name, open_filtered) > 0 {
            self.filtered_count(name, open_filtered)
        } else {
            mask::count_set(open_unfiltered)
        }
    }

    /// The senders after a publish was dispatched: to the filtered receivers that it reaches, and,
    /// where there are none, to the unfiltered receivers.
    pub open spec fn dispatched(
        self,
        name: Seq<char>,
        publish: control_packet::PublishView,
        open_filtered: Seq<bool>,
        open_unfiltered: Seq<bool>,
    ) -> ManagerView {
        ManagerView {
            filtered: filtered_after(self.filtered, name, message_of(publish), open_filtered),
            unfiltered: if self.filtered_count(name, open_filtered) > 0 {
                self.unfiltered
            } else {
                unfiltered_after(self.unfiltered, message_of(publish), open_unfiltered)
            },
        }
    }

    /// Whether the flags tell of the receivers that are sent a publish whether they are open.
    pub open spec fn answers(
        self,
        name: Seq<char>,
        open_filtered: Seq<bool>,
        open_unfiltered: Seq<bool>,
    ) -> bool {
        &&& answers_of_matching(self.filtered, name, open_filtered)
        &&& open_unfiltered.len() == self.unfiltered.len()
    }
}

/// What becomes of a publish that is to be dispatched.
pub enum DispatchFate {
    /// It is sent to the receivers, under this topic name.
    Sent(Seq<char>),
    /// It is discarded, as it was received before and is not acked yet.
    Discarded,
    /// It cannot be dispatched.
    Refused(DispatchError),
}

/// What becomes of a publish, given the PKIDs that are yet to be acked.
pub open spec fn dispatch_fate(
    queue: Seq<u16>,
    publish: control_packet::PublishView,
) -> DispatchFate {
    match publish_topic(publish.topic) {
        Err(e) => DispatchFate::Refused(DispatchError::InvalidPublishTopic(e)),
        Ok(name) => if publish.dup && queue.contains(publish.pkid) {
            DispatchFate::Discarded
        } else if publish.qos != QoS::AtMostOnce && PkidAckQueue::refusal(
            queue,
            publish.pkid,
        ) is Some {
            DispatchFate::Refused(
                DispatchError::InvalidPublishPkid(
                    PkidAckQueue::refusal(queue, publish.pkid)->0,
                ),
            )
        } else {
            DispatchFate::Sent(name)
        },
    }
}

/// Dispatches incoming publishes to receivers, and decides when they are acked.
pub struct IncomingPublishDispatcher {
    acks: DispatchedAcks,
    receiver_manager: PublishReceiverManager,
}

impl IncomingPublishDispatcher {
    /// The acks of the dispatched publishes.
    pub closed spec fn acks(self) -> dispatched_acks::AcksView {
        self.acks@
    }

    /// The senders to the receivers.
    pub closed spec fn manager(self) -> PublishReceiverManager {
        self.receiver_manager
    }

    /// The acks are well-formed.
    pub closed spec fn wf(self) -> bool {
        self.acks.wf()
    }

    /// Whether sending a publish to the receivers led from this dispatcher to another, where the
    /// flags tell which receivers were found open.
    pub open spec fn is_sent(
        self,
        after: Self,
        name: Seq<char>,
        publish: control_packet::PublishView,
        count: usize,
        open_filtered: Seq<bool>,
        open_unfiltered: Seq<bool>,
    ) -> bool {
        &&& is_filtered_dispatch(
            self.manager().filtered_txs@,
            after.manager().filtered_txs@,
            name,
            message_of(publish),
            open_filtered,
        )
        &&& if self.manager()@.filtered_count(name, open_filtered) > 0 {
            after.manager().unfiltered_txs@ == self.manager().unfiltered_txs@
        } else {
            is_unfiltered_dispatch(
                self.manager().unfiltered_txs@,
                after.manager().unfiltered_txs@,
                message_of(publish),
                open_unfiltered,
            )
        }
        &&& self.manager()@.answers(name, open_filtered, open_unfiltered)
        &&& count == self.manager()@.dispatch_count(name, open_filtered, open_unfiltered)
        &&& after.manager()@ == self.manager()@.dispatched(
            name,
            publish,
            open_filtered,
            open_unfiltered,
        )
        &&& after.acks() == self.acks().dispatched(publish, count as nat)
    }

    /// Whether sending a publish to so many receivers led from this dispatcher to another.
    pub open spec fn is_sent_to(
        self,
        after: Self,
        name: Seq<char>,
        publish: control_packet::PublishView,
        count: usize,
    ) -> bool {
        exists|open_filtered: Seq<bool>, open_unfiltered: Seq<bool>| #[trigger]
            self.is_sent(after, name, publish, count, open_filtered, open_unfiltered)
    }

    /// Create and return a new [`IncomingPublishDispatcher`] instance without receivers.
    pub fn new() -> (r: Self)
        ensures
            r.wf(),
            r.acks() == (dispatched_acks::AcksView {
                queue: Seq::empty(),
                pending: Set::empty(),
                awaiting: Seq::empty(),
                ready: Seq::empty(),
            }),
            r.manager().filtered_txs@ == Seq::<FilteredTx>::empty(),
            r.manager().unfiltered_txs@ == Seq::<PublishTx>::empty(),
    {
        IncomingPublishDispatcher {
            acks: DispatchedAcks::new(),
            receiver_manager: PublishReceiverManager::default(),
        }
    }

    /// Get a reference to the [`PublishReceiverManager`] for this dispatcher.
    pub fn get_receiver_manager(&mut self) -> (r: &mut PublishReceiverManager)
        requires
            old(self).wf(),
        ensures
            *r == old(self).manager(),
            final(self).manager() == *final(r),
            final(self).acks() == old(self).acks(),
            final(self).wf(),
    {
        &mut self.receiver_manager
    }

    /// Dispatch a [`Publish`] to all relevant receivers.
    ///
    /// Returns the number of receivers that the publish was dispatched to.
    ///
    /// If the publish matches any filtered receivers, it will be dispatched to them. If it does not,
    /// it will be dispatched to any unfiltered receivers, if they exist. Filtered receivers whose
    /// filter matches, and unfiltered receivers that the publish is dispatched to, are removed if
    /// they are found closed.
    ///
    /// A publish with a QoS above 0 joins the queue of publishes to be acked. Each of its receivers
    /// gets a token; once all of them are [released](Self::release), or at once if there are no
    /// receivers, the publish is ready to be acked.
    ///
    /// # Arguments
    /// * `publish` - The [`Publish`] to dispatch
    ///
    /// # Errors
    /// Returns a [`DispatchError`] if dispatching fails.
    pub fn dispatch_publish(&mut self, publish: &Publish) -> (r: Result<usize, DispatchError>)
        requires
            old(self).wf(),
        ensures
            final(self).wf(),
            match dispatch_fate(old(self).acks().queue, publish@) {
                DispatchFate::Refused(e) => {
                    &&& r == Err::<usize, DispatchError>(e)
                    &&& *final(self) == *old(self)
                },
                DispatchFate::Discarded => {
                    &&& r == Ok::<usize, DispatchError>(0)
                    &&& *final(self) == *old(self)
                },
                DispatchFate::Sent(name) => {
                    &&& r is Ok
                    &&& old(self).is_sent_to(*final(self), name, publish@, r->Ok_0)
                },
            },
    {
        let topic_name = match extract_publish_topic_name(publish) {
            Ok(topic_name) => topic_name,
            Err(e) => {
                return Err(DispatchError::InvalidPublishTopic(e));
            },
        };
        // Check if the incoming publish is a duplicate of a publish that is already in the
        // PKID queue.
        if publish.dup && self.acks.pkid_ack_queue().contains(publish.pkid) {
            // NOTE: A client is required to treat received duplicates as a new application message.
            // However, this is only true when a publish with the same PKID has previously been
            // acked, because it then becomes impossible to tell if this duplicate was a redelivery
            // of the previous message, or a redelivery of another message with the same PKID that
            // was lost.
            //
            // In this case, if we have that same PKID in the queue, we know that the duplicate
            // is for the same publish we are still waiting to ack, because the PKID would not
            // be available for re-use by the broker until that publish was acked.
            // Thus, we can safely discard the duplicate without dispatching.
            // In fact, this is necessary for the correct acking of publishes that were
            // previously dispatched to the receivers.
            return Ok(0);
        }
        // Prepare the PlenaryAck for distributed acking
        let mut plenary_ack: Option<PlenaryAck> = None;
        if publish.qos != QoS::AtMostOnce {
            if let Err(e) = self.acks.pkid_ack_queue().check_insert(publish.pkid) {
                return Err(DispatchError::InvalidPublishPkid(e));
            }
            plenary_ack = Some(PlenaryAck::new(publish.pkid));
        }
        Ok(self.send_publish(&topic_name, publish, plenary_ack))
    }

    /// Send a publish that can be dispatched to all relevant receivers.
    fn send_publish(
        &mut self,
        topic_name: &TopicName,
        publish: &Publish,
        plenary_ack: Option<PlenaryAck>,
    ) -> (count: usize)
        requires
            old(self).wf(),
            is_ack_for(opt_ack(plenary_ack), publish@),
            publish@.qos != QoS::AtMostOnce ==> PkidAckQueue::refusal(
                old(self).acks().queue,
                publish@.pkid,
            ) is None,
        ensures
            final(self).wf(),
            old(self).is_sent_to(*final(self), topic_name@, publish@, count),
    {
        let mut plenary_ack = plenary_ack;
        let ghost before = self.receiver_manager@;
        // First, dispatch to all filtered receivers that match the topic name
        let filtered = self.receiver_manager.dispatch_filtered(
            topic_name,
            publish,
            &mut plenary_ack,
        );
        let ghost mut open_unfiltered = Seq::new(before.unfiltered.len(), |i: int| true);
        let mut count = filtered.count;
        // Then, if no filters matched, dispatch to all unfiltered receivers (if present)
        if count == 0 {
            let unfiltered = self.receiver_manager.dispatch_unfiltered(publish, &mut plenary_ack);
            count = unfiltered.count;
            proof {
                open_unfiltered = unfiltered.open@;
            }
        }
        if let Some(plenary_ack) = plenary_ack {
            self.acks.dispatched(publish, plenary_ack);
        }
        proof {
            assert(before.answers(topic_name@, filtered.open@, open_unfiltered));
            assert(self.receiver_manager@ =~= before.dispatched(
                topic_name@,
                publish@,
                filtered.open@,
                open_unfiltered,
            ));
            assert(old(self).is_sent(
                *self,
                topic_name@,
                publish@,
                count,
                filtered.open@,
                open_unfiltered,
            ));
        }
        count
    }

    /// A receiver acked its token, or dropped it. Returns whether that made the publish ready to be
    /// acked.
    pub fn release(&mut self, token: AckToken) -> (r: bool)
        requires
            old(self).wf(),
        ensures
            final(self).wf(),
            final(self).manager() == old(self).manager(),
            final(self).acks() == old(self).acks().released(token@),
            r == (final(self).acks().ready.len() > old(self).acks().ready.len()),
    {
        self.acks.release(token.pkid())
    }

    /// Request the ack of the next publish that is ready, if there is one: of that which became ready
    /// first. Its ack is to be sent at once if it is its turn, and otherwise waits until the publishes
    /// that were received before it are acked.
    pub fn request_next_ack(&mut self) -> (r: Option<(Publish, AckTurn)>)
        requires
            old(self).wf(),
        ensures
            final(self).wf(),
            final(self).manager() == old(self).manager(),
            final(self).acks() == old(self).acks().next_requested(),
            old(self).acks().ready.len() == 0 ==> r is None,
            old(self).acks().ready.len() > 0 ==> {
                &&& r matches Some((publish, turn))
                &&& publish@ == old(self).acks().ready[0]
                &&& turn == if old(self).acks().ack_state().is_turn(publish@.pkid) {
                    AckTurn::Now
                } else {
                    AckTurn::Wait
                }
            },
    {
        self.acks.request_next()
    }

    /// Whether the turn of a waiting PKID has come. If so, its ack is to be sent.
    pub fn ask_again(&mut self, pkid: u16) -> (r: bool)
        requires
            old(self).wf(),
        ensures
            final(self).wf(),
            final(self).manager() == old(self).manager(),
            final(self).acks() == old(self).acks().asked_again(pkid),
            r == (old(self).acks().pending.contains(pkid) && old(self).acks().ack_state().is_turn(
                pkid,
            )),
    {
        self.acks.ask_again(pkid)
    }
}

/// Filtered receivers supersede unfiltered ones: a publish that reaches a filtered receiver is not
/// sent to any unfiltered receiver.
pub proof fn law_filtered_supersede_unfiltered(
    before: ManagerView,
    name: Seq<char>,
    publish: control_packet::PublishView,
    open_filtered: Seq<bool>,
    open_unfiltered: Seq<bool>,
)
    requires
        before.answers(name, open_filtered, open_unfiltered),
        exists|i: int|
            0 <= i < before.filtered.len() && topic::topic_matches(
                before.filtered[i].topic_filter,
                name,
            ) && #[trigger] open_filtered[i],
    ensures
        before.dispatched(name, publish, open_filtered, open_unfiltered).unfiltered
            == before.unfiltered,
        before.dispatch_count(name, open_filtered, open_unfiltered) > 0,
{
    let i = choose|i: int|
        0 <= i < before.filtered.len() && topic::topic_matches(
            before.filtered[i].topic_filter,
            name,
        ) && #[trigger] open_filtered[i];
    let reached = filtered_reached(before.filtered, name, open_filtered);
    assert(reached[i]);
    mask::lemma_count_set_zero(reached);
}

/// A filtered receiver gets the publishes whose topic matches its filter, as long as it is open, and
/// no others: of each sender that is left, either it was sent nothing, or its filter matches and it
/// was sent the publish; and every sender whose filter matches and whose receiver is open was sent it.
pub proof fn law_filtered_receive_what_matches(
    before: ManagerView,
    name: Seq<char>,
    publish: control_packet::PublishView,
    open_filtered: Seq<bool>,
    open_unfiltered: Seq<bool>,
    i: int,
)
    requires
        before.answers(name, open_filtered, open_unfiltered),
    ensures
        ({
            let after = before.dispatched(
                name,
                publish,
                open_filtered,
                open_unfiltered,
            ).filtered;
            &&& 0 <= i < after.len() ==> exists|j: int|
                0 <= j < before.filtered.len() && if topic::topic_matches(
                    (#[trigger] before.filtered[j]).topic_filter,
                    name,
                ) {
                    after[i] == sent_to(before.filtered[j], publish)
                } else {
                    after[i] == before.filtered[j]
                }
            &&& 0 <= i < before.filtered.len() && topic::topic_matches(
                before.filtered[i].topic_filter,
                name,
            ) && open_filtered[i] ==> after.contains(sent_to(before.filtered[i], publish))
        }),
{
    let reached = filtered_reached(before.filtered, name, open_filtered);
    let sent = Seq::new(
        before.filtered.len(),
        |k: int|
            if reached[k] {
                FilteredView {
                    tx: before.filtered[k].tx.sent(message_of(publish)),
                    ..before.filtered[k]
                }
            } else {
                before.filtered[k]
            },
    );
    let after = before.dispatched(name, publish, open_filtered, open_unfiltered).filtered;
    assert(after == mask::keep_where(sent, open_filtered));
    mask::lemma_keep_where_members(sent, open_filtered);
    if 0 <= i < after.len() {
        assert(mask::is_kept(sent, open_filtered, after[i]));
        let j = choose|j: int|
            0 <= j < sent.len() && open_filtered[j] && #[trigger] sent[j] == after[i];
        assert(before.filtered[j].topic_filter == sent[j].topic_filter);
    }
    if 0 <= i < before.filtered.len() && topic::topic_matches(
        before.filtered[i].topic_filter,
        name,
    ) && open_filtered[i] {
        assert(reached[i]);
        assert(sent[i] == sent_to(before.filtered[i], publish));
    }
}

/// Whether the filtered sender is left after a dispatch as it should be: one whose filter matches has
/// sent the publish, unless it was found closed and removed, and any other is unchanged.
pub open spec fn is_served(
    tx: FilteredTx,
    after: Seq<FilteredTx>,
    name: Seq<char>,
    message: Message,
) -> bool {
    if topic::topic_matches(tx.topic_filter@, name) {
        exists|tried: FilteredTx|
            {
                &&& tried.topic_filter == tx.topic_filter
                &&& #[trigger] tx_view(tried.tx).channel == tx_view(tx.tx).channel
                &&& if found_closed(tried.tx) {
                    tx_view(tried.tx) == tx_view(tx.tx)
                } else {
                    after.contains(tried) && tx_view(tried.tx) == tx_view(tx.tx).sent(message)
                }
            }
    } else {
        after.contains(tx)
    }
}

/// Every filtered receiver whose filter matches gets a publish that is dispatched, unless it is found
/// closed; and no filtered receiver is removed but those.
pub proof fn law_dispatch_serves_every_filtered_receiver(
    before: Seq<FilteredTx>,
    after: Seq<FilteredTx>,
    name: Seq<char>,
    message: Message,
    open: Seq<bool>,
    i: int,
)
    requires
        is_filtered_dispatch(before, after, name, message, open),
        0 <= i < before.len(),
    ensures
        is_served(before[i], after, name, message),
{
    let tried = choose|tried: Seq<FilteredTx>| #[trigger]
        is_tried(before, tried, name, message, open) && after == mask::keep_where(tried, open);
    mask::lemma_keep_where_members(tried, open);
    let tx = before[i];
    if open[i] {
        assert(after.contains(tried[i]));
    }
    if topic::topic_matches(tx.topic_filter@, name) {
        assert(is_offered(tx.tx, tried[i].tx, message, open[i]));
        assert(tx_view(tried[i].tx).channel == tx_view(tx.tx).channel);
    }
}

/// Every unfiltered receiver gets a publish that is dispatched to the unfiltered ones, unless it is
/// found closed; and none is removed but those.
pub proof fn law_dispatch_serves_every_unfiltered_receiver(
    before: Seq<PublishTx>,
    after: Seq<PublishTx>,
    message: Message,
    open: Seq<bool>,
    i: int,
)
    requires
        is_unfiltered_dispatch(before, after, message, open),
        0 <= i < before.len(),
    ensures
        exists|tried: PublishTx|
            {
                &&& #[trigger] tx_view(tried).channel == tx_view(before[i]).channel
                &&& if found_closed(tried) {
                    tx_view(tried) == tx_view(before[i])
                } else {
                    after.contains(tried) && tx_view(tried) == tx_view(before[i]).sent(message)
                }
            },
{
    let tried = choose|tried: Seq<PublishTx>| #[trigger]
        is_tried_unfiltered(before, tried, message, open) && after == mask::keep_where(tried, open);
    mask::lemma_keep_where_members(tried, open);
    assert(is_offered(before[i], tried[i], message, open[i]));
    if open[i] {
        assert(after.contains(tried[i]));
    }
    assert(tx_view(tried[i]).channel == tx_view(before[i]).channel);
}

/// Creating a filtered receiver removes none of the others but those that are found closed, and
/// leaves none of those.
pub proof fn law_pruning_removes_just_the_closed(
    before: Seq<FilteredTx>,
    after: Seq<FilteredTx>,
    i: int,
)
    requires
        is_pruned(before, after),
    ensures
        0 <= i < before.len() ==> exists|asked: FilteredTx|
            {
                &&& #[trigger] asked@ == before[i]@
                &&& found_closed(asked.tx) || after.contains(asked)
            },
        0 <= i < after.len() ==> !found_closed(after[i].tx),
{
    let (asked, open) = choose|asked: Seq<FilteredTx>, open: Seq<bool>| #[trigger]
        is_asked(before, asked, open) && after == mask::keep_where(asked, open);
    mask::lemma_keep_where_members(asked, open);
    if 0 <= i < before.len() {
        assert(filtered_view(asked)[i] == filtered_view(before)[i]);
        assert(asked[i]@ == before[i]@);
        if open[i] {
            assert(after.contains(asked[i]));
        }
    }
    if 0 <= i < after.len() {
        assert(mask::is_kept(asked, open, after[i]));
        let j = choose|j: int| 0 <= j < asked.len() && open[j] && #[trigger] asked[j] == after[i];
        assert(open[j]);
    }
}

/// A sender after a publish was sent to its receiver.
pub open spec fn sent_to(
    tx: FilteredView,
    publish: control_packet::PublishView,
) -> FilteredView {
    FilteredView { tx: tx.tx.sent(message_of(publish)), ..tx }
}

/// A publish that no receiver gets is acknowledged at once, and discarded.
pub proof fn law_publish_without_receivers_is_acked(
    acks: dispatched_acks::AcksView,
    publish: control_packet::PublishView,
)
    requires
        publish.qos != QoS::AtMostOnce,
    ensures
        acks.dispatched(publish, 0).ready == acks.ready.push(publish),
        acks.dispatched(publish, 0).awaiting == acks.awaiting,
{
}

/// A publish whose topic matches no filter leaves the filtered receivers as they are, and goes to
/// every unfiltered receiver that is open.
pub proof fn law_unmatched_goes_to_unfiltered(
    before: ManagerView,
    name: Seq<char>,
    publish: control_packet::PublishView,
    open_filtered: Seq<bool>,
    open_unfiltered: Seq<bool>,
)
    requires
        before.answers(name, open_filtered, open_unfiltered),
        forall|i: int|
            0 <= i < before.filtered.len() ==> !topic::topic_matches(
                (#[trigger] before.filtered[i]).topic_filter,
                name,
            ),
    ensures
        before.dispatched(name, publish, open_filtered, open_unfiltered) == (ManagerView {
            filtered: before.filtered,
            unfiltered: unfiltered_after(before.unfiltered, message_of(publish), open_unfiltered),
        }),
        before.dispatch_count(name, open_filtered, open_unfiltered) == mask::count_set(
            open_unfiltered,
        ),
{
    let reached = filtered_reached(before.filtered, name, open_filtered);
    assert forall|i: int| 0 <= i < reached.len() implies !reached[i] by {
        assert(!topic::topic_matches(before.filtered[i].topic_filter, name));
    }
    mask::lemma_count_set_zero(reached);
    let sent = Seq::new(
        before.filtered.len(),
        |i: int|
            if reached[i] {
                FilteredView {
                    tx: before.filtered[i].tx.sent(message_of(publish)),
                    ..before.filtered[i]
                }
            } else {
                before.filtered[i]
            },
    );
    assert(sent =~= before.filtered);
    assert forall|i: int| 0 <= i < open_filtered.len() implies open_filtered[i] by {
        assert(!topic::topic_matches(before.filtered[i].topic_filter, name));
    }
    mask::lemma_keep_all(sent, open_filtered);
}

/// A publish with QoS 0 comes without a token, and is never acked.
pub proof fn law_qos_0_is_not_acked(
    acks: dispatched_acks::AcksView,
    publish: control_packet::PublishView,
    count: nat,
)
    requires
        publish.qos == QoS::AtMostOnce,
    ensures
        acks.dispatched(publish, count) == acks,
        message_of(publish) == (publish, None::<u16>),
{
}

/// A publish that arrives again before it was acked is discarded or refused.
pub proof fn law_unacked_publish_is_not_sent_twice(
    queue: Seq<u16>,
    publish: control_packet::PublishView,
)
    requires
        queue.contains(publish.pkid),
        publish.qos != QoS::AtMostOnce,
    ensures
        !(dispatch_fate(queue, publish) is Sent),
        publish_topic(publish.topic) is Ok && publish.dup ==> dispatch_fate(queue, publish)
            is Discarded,
{
}

} // verus!
