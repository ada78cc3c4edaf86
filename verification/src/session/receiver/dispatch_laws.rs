//! What becomes of publishes, told by what is in them and by the receivers that there are.

use vstd::prelude::*;

use crate::control_packet::{self, QoS};
use crate::mask::{self, law_count_is_that_of_the_flags_set};
use crate::session::receiver::ordered_acker::PkidError;
use crate::session::receiver::{
    self, law_dispatch_serves_every_filtered_receiver,
    law_dispatch_serves_every_unfiltered_receiver, DispatchError, DispatchFate, FilteredTx,
    IncomingPublishDispatcher, InvalidPublish, ManagerView, PublishRx, PublishTx,
};
use crate::topic::{self, law_topic_names_are_texts_without_wildcards};

verus! {

/// Whether a text can be the topic of a publish.
pub open spec fn is_topic(name: Seq<char>) -> bool {
    &&& name.len() > 0
    &&& !name.contains('\0')
    &&& !name.contains('+')
    &&& !name.contains('#')
}

/// A publish is sent under its topic exactly if the topic is one, and its PKID can join the queue, if
/// it needs an ack; but a redelivery of a publish that is not acked yet is discarded. The errors tell
/// what is wrong with the topic or the PKID.
pub proof fn law_which_publishes_are_sent(
    queue: Seq<u16>,
    publish: control_packet::PublishView,
    name: Seq<char>,
)
    requires
        vstd::utf8::valid_utf8(publish.topic),
        name == vstd::utf8::decode_utf8(publish.topic),
    ensures
        dispatch_fate_is_sent(queue, publish, name) <==> {
            &&& is_topic(name)
            &&& !(publish.dup && queue.contains(publish.pkid))
            &&& publish.qos == QoS::AtMostOnce || (publish.pkid != 0 && !queue.contains(
                publish.pkid,
            ))
        },
        receiver::dispatch_fate(queue, publish) is Discarded <==> is_topic(name) && publish.dup
            && queue.contains(publish.pkid),
        receiver::dispatch_fate(queue, publish) is Refused <==> !is_topic(name) || (!(publish.dup
            && queue.contains(publish.pkid)) && publish.qos != QoS::AtMostOnce && (publish.pkid == 0
            || queue.contains(publish.pkid))),
        receiver::dispatch_fate(queue, publish) matches DispatchFate::Refused(e) ==> {
            &&& !is_topic(name) ==> e is InvalidPublishTopic
            &&& is_topic(name) ==> e == DispatchError::InvalidPublishPkid(
                if publish.pkid == 0 {
                    PkidError::PkidZero
                } else {
                    PkidError::PkidDuplicate
                },
            )
        },
{
    law_topic_names_are_texts_without_wildcards(name);
}

/// Whether a publish is sent under this name.
pub open spec fn dispatch_fate_is_sent(
    queue: Seq<u16>,
    publish: control_packet::PublishView,
    name: Seq<char>,
) -> bool {
    receiver::dispatch_fate(queue, publish) matches DispatchFate::Sent(n) && n == name
}

/// A publish whose topic is not text is refused.
pub proof fn law_publish_with_invalid_utf8_is_refused(
    queue: Seq<u16>,
    publish: control_packet::PublishView,
)
    requires
        !vstd::utf8::valid_utf8(publish.topic),
    ensures
        receiver::dispatch_fate(queue, publish) matches DispatchFate::Refused(e) && e
            == DispatchError::InvalidPublishTopic(InvalidPublish::TopicNameUtf8),
{
}

/// The PKID of the token that each receiver of a publish gets: none if the publish needs no ack.
pub open spec fn token_of(publish: control_packet::PublishView) -> Option<u16> {
    if publish.qos == QoS::AtMostOnce {
        None
    } else {
        Some(publish.pkid)
    }
}

/// Whether a receiver was sent the publish and its token, behind all that it was sent before, unless
/// it was found closed.
pub open spec fn is_offered_publish(
    before: PublishTx,
    after: PublishTx,
    publish: control_packet::PublishView,
) -> bool {
    &&& receiver::sender_channel(after) == receiver::sender_channel(before)
    &&& receiver::accepted(after) == if receiver::found_closed(after) {
        receiver::accepted(before)
    } else {
        receiver::accepted(before).push((publish, token_of(publish)))
    }
}

/// A publish that is sent goes to every filtered receiver whose filter matches its topic, just as it
/// is and with a token, unless that receiver is found closed; the other filtered receivers are left
/// as they are.
pub proof fn law_publish_goes_to_every_matching_receiver(
    before: IncomingPublishDispatcher,
    after: IncomingPublishDispatcher,
    name: Seq<char>,
    publish: control_packet::PublishView,
    count: usize,
    i: int,
)
    requires
        before.is_sent_to(after, name, publish, count),
        0 <= i < before.manager().filtered_txs@.len(),
    ensures
        ({
            let tx = before.manager().filtered_txs@[i];
            if topic::topic_matches(tx.topic_filter@, name) {
                exists|tried: FilteredTx|
                    {
                        &&& tried.topic_filter == tx.topic_filter
                        &&& #[trigger] is_offered_publish(tx.tx, tried.tx, publish)
                        &&& !receiver::found_closed(tried.tx)
                            ==> after.manager().filtered_txs@.contains(tried)
                    }
            } else {
                after.manager().filtered_txs@.contains(tx)
            }
        }),
{
    let (open_filtered, open_unfiltered) = choose|
        open_filtered: Seq<bool>,
        open_unfiltered: Seq<bool>,
    | #[trigger]
        before.is_sent(after, name, publish, count, open_filtered, open_unfiltered);
    let txs = before.manager().filtered_txs@;
    let left = after.manager().filtered_txs@;
    let message = receiver::message_of(publish);
    assert(message == (publish, token_of(publish)));
    law_dispatch_serves_every_filtered_receiver(txs, left, name, message, open_filtered, i);
    let tx = txs[i];
    if topic::topic_matches(tx.topic_filter@, name) {
        let tried = choose|tried: FilteredTx|
            {
                &&& tried.topic_filter == tx.topic_filter
                &&& #[trigger] receiver::tx_view(tried.tx).channel == receiver::tx_view(
                    tx.tx,
                ).channel
                &&& if receiver::found_closed(tried.tx) {
                    receiver::tx_view(tried.tx) == receiver::tx_view(tx.tx)
                } else {
                    left.contains(tried) && receiver::tx_view(tried.tx) == receiver::tx_view(
                        tx.tx,
                    ).sent(message)
                }
            };
        assert(is_offered_publish(tx.tx, tried.tx, publish));
    }
}

/// A publish that is sent reaches a filtered receiver if there is one whose filter matches and that is
/// not found closed. Then no unfiltered receiver is sent it; otherwise all of them are, but for those
/// that are found closed.
pub proof fn law_unfiltered_receivers_get_what_no_other_gets(
    before: IncomingPublishDispatcher,
    after: IncomingPublishDispatcher,
    name: Seq<char>,
    publish: control_packet::PublishView,
    count: usize,
    open_filtered: Seq<bool>,
    open_unfiltered: Seq<bool>,
    i: int,
)
    requires
        before.is_sent(after, name, publish, count, open_filtered, open_unfiltered),
        0 <= i < before.manager().unfiltered_txs@.len(),
    ensures
        (exists|j: int|
            0 <= j < before.manager().filtered_txs@.len() && topic::topic_matches(
                before.manager().filtered_txs@[j].topic_filter@,
                name,
            ) && #[trigger] open_filtered[j]) ==> after.manager().unfiltered_txs@
            == before.manager().unfiltered_txs@,
        !(exists|j: int|
            0 <= j < before.manager().filtered_txs@.len() && topic::topic_matches(
                before.manager().filtered_txs@[j].topic_filter@,
                name,
            ) && #[trigger] open_filtered[j]) ==> exists|tried: PublishTx|
            {
                &&& #[trigger] is_offered_publish(
                    before.manager().unfiltered_txs@[i],
                    tried,
                    publish,
                )
                &&& !receiver::found_closed(tried) ==> after.manager().unfiltered_txs@.contains(
                    tried,
                )
            },
{
    let view = before.manager()@;
    let txs = before.manager().filtered_txs@;
    let reached = receiver::filtered_reached(view.filtered, name, open_filtered);
    mask::lemma_count_set_zero(reached);
    let message = receiver::message_of(publish);
    assert(message == (publish, token_of(publish)));
    assert forall|j: int| 0 <= j < txs.len() implies #[trigger] reached[j] == (topic::topic_matches(
        txs[j].topic_filter@,
        name,
    ) && open_filtered[j]) by {
        assert(view.filtered[j] == txs[j]@);
    }
    if exists|j: int|
        0 <= j < txs.len() && topic::topic_matches(txs[j].topic_filter@, name)
            && #[trigger] open_filtered[j] {
        let j = choose|j: int|
            0 <= j < txs.len() && topic::topic_matches(txs[j].topic_filter@, name)
                && #[trigger] open_filtered[j];
        assert(reached[j]);
    } else {
        assert forall|j: int| 0 <= j < reached.len() implies !#[trigger] reached[j] by {
            if reached[j] {
                assert(open_filtered[j]);
            }
        }
        let others = before.manager().unfiltered_txs@;
        let left = after.manager().unfiltered_txs@;
        law_dispatch_serves_every_unfiltered_receiver(others, left, message, open_unfiltered, i);
        let tried = choose|tried: PublishTx|
            {
                &&& #[trigger] receiver::tx_view(tried).channel == receiver::tx_view(
                    others[i],
                ).channel
                &&& if receiver::found_closed(tried) {
                    receiver::tx_view(tried) == receiver::tx_view(others[i])
                } else {
                    left.contains(tried) && receiver::tx_view(tried) == receiver::tx_view(
                        others[i],
                    ).sent(message)
                }
            };
        assert(is_offered_publish(others[i], tried, publish));
    }
}

/// A publish is dispatched to as many receivers as have a filter that matches and are open, or, if
/// there are none, as are unfiltered and open.
pub proof fn law_count_of_receivers(
    manager: ManagerView,
    name: Seq<char>,
    open_filtered: Seq<bool>,
    open_unfiltered: Seq<bool>,
    reached: Seq<bool>,
)
    requires
        manager.answers(name, open_filtered, open_unfiltered),
        reached.len() == manager.filtered.len(),
        forall|i: int|
            0 <= i < reached.len() ==> #[trigger] reached[i] == (topic::topic_matches(
                manager.filtered[i].topic_filter,
                name,
            ) && open_filtered[i]),
    ensures
        manager.dispatch_count(name, open_filtered, open_unfiltered) == if reached.filter(
            |b: bool| b,
        ).len() > 0 {
            reached.filter(|b: bool| b).len()
        } else {
            open_unfiltered.filter(|b: bool| b).len()
        },
{
    assert(reached =~= receiver::filtered_reached(manager.filtered, name, open_filtered));
    law_count_is_that_of_the_flags_set(reached);
    law_count_is_that_of_the_flags_set(open_unfiltered);
}

/// A publish that needs an ack and is sent to so many receivers joins the queue behind all others. It
/// is held by as many tokens as it has receivers, or is ready to be acked if it has none, and no other
/// publish is touched.
pub proof fn law_sent_publish_joins_the_queue(
    before: IncomingPublishDispatcher,
    after: IncomingPublishDispatcher,
    name: Seq<char>,
    publish: control_packet::PublishView,
    count: usize,
)
    requires
        before.is_sent_to(after, name, publish, count),
    ensures
        publish.qos == QoS::AtMostOnce ==> after.acks() == before.acks(),
        publish.qos != QoS::AtMostOnce ==> {
            &&& after.acks().queue == before.acks().queue.push(publish.pkid)
            &&& after.acks().pending == before.acks().pending
            &&& count > 0 ==> after.acks().awaiting == before.acks().awaiting.push(
                (publish, count as nat),
            )
            &&& count > 0 ==> after.acks().ready == before.acks().ready
            &&& count == 0 ==> after.acks().ready == before.acks().ready.push(publish)
            &&& count == 0 ==> after.acks().awaiting == before.acks().awaiting
        },
{
    let (open_filtered, open_unfiltered) = choose|
        open_filtered: Seq<bool>,
        open_unfiltered: Seq<bool>,
    | #[trigger]
        before.is_sent(after, name, publish, count, open_filtered, open_unfiltered);
    assert(after.acks() == before.acks().dispatched(publish, count as nat));
}

/// A new sender sends to the receiver that it was created with, and has sent nothing yet.
pub proof fn law_new_sender_sends_to_its_receiver(tx: PublishTx, rx: PublishRx)
    requires
        receiver::is_new_sender_to(receiver::tx_view(tx), rx),
    ensures
        receiver::sender_channel(tx) == receiver::receiver_channel(rx),
        receiver::accepted(tx).len() == 0,
{
}

/// The number of receivers that a publish was dispatched to is told.
pub proof fn law_count_is_told(
    before: IncomingPublishDispatcher,
    after: IncomingPublishDispatcher,
    name: Seq<char>,
    publish: control_packet::PublishView,
    count: usize,
    open_filtered: Seq<bool>,
    open_unfiltered: Seq<bool>,
    reached: Seq<bool>,
)
    requires
        before.is_sent(after, name, publish, count, open_filtered, open_unfiltered),
        reached.len() == before.manager().filtered_txs@.len(),
        forall|i: int|
            0 <= i < reached.len() ==> #[trigger] reached[i] == (topic::topic_matches(
                before.manager().filtered_txs@[i].topic_filter@,
                name,
            ) && open_filtered[i]),
    ensures
        count == if reached.filter(|b: bool| b).len() > 0 {
            reached.filter(|b: bool| b).len()
        } else {
            open_unfiltered.filter(|b: bool| b).len()
        },
{
    let view = before.manager()@;
    assert forall|i: int| 0 <= i < reached.len() implies #[trigger] reached[i] == (
    topic::topic_matches(view.filtered[i].topic_filter, name) && open_filtered[i]) by {
        assert(view.filtered[i] == before.manager().filtered_txs@[i]@);
    }
    law_count_of_receivers(view, name, open_filtered, open_unfiltered, reached);
}

} // verus!
