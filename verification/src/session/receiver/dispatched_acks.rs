//! The acks of dispatched publishes, from the dispatch until they are to be sent.

use vstd::prelude::*;

use crate::control_packet::{self, Publish, QoS};
use crate::session::receiver::ordered_acker::{self, AckTurn, OrderedAcker, PkidAckQueue};
use crate::session::receiver::plenary_ack::PlenaryAck;

verus! {

/// How far the acks of the publishes are that were dispatched and are not acked yet.
#[verifier::ext_equal]
pub struct AcksView {
    /// The PKIDs yet to be acked, in the order in which their publishes were received.
    pub queue: Seq<u16>,
    /// The PKIDs whose ack was requested and waits for its turn.
    pub pending: Set<u16>,
    /// The publishes that receivers hold tokens of, each with the number of those tokens.
    pub awaiting: Seq<(control_packet::PublishView, nat)>,
    /// The publishes whose ack is to be requested.
    pub ready: Seq<control_packet::PublishView>,
}

impl AcksView {
    /// Whether receivers hold tokens of the PKID.
    pub open spec fn is_awaiting(self, pkid: u16) -> bool {
        exists|i: int| 0 <= i < self.awaiting.len() && (#[trigger] self.awaiting[i]).0.pkid == pkid
    }

    /// Whether the ack of the PKID is to be requested.
    pub open spec fn is_ready(self, pkid: u16) -> bool {
        exists|i: int| 0 <= i < self.ready.len() && (#[trigger] self.ready[i]).pkid == pkid
    }

    /// The PKIDs in the queue differ, none is zero, and each of them is in exactly one stage: held by
    /// receivers, ready, or waiting for its turn.
    pub open spec fn valid(self) -> bool {
        &&& self.queue.no_duplicates()
        &&& !self.queue.contains(0)
        &&& forall|i: int|
            0 <= i < self.awaiting.len() ==> {
                &&& (#[trigger] self.awaiting[i]).1 > 0
                &&& self.queue.contains(self.awaiting[i].0.pkid)
                &&& !self.pending.contains(self.awaiting[i].0.pkid)
                &&& !self.is_ready(self.awaiting[i].0.pkid)
            }
        &&& forall|i: int|
            0 <= i < self.ready.len() ==> {
                &&& self.queue.contains((#[trigger] self.ready[i]).pkid)
                &&& !self.pending.contains(self.ready[i].pkid)
            }
        &&& forall|i: int, j: int|
            0 <= i < j < self.awaiting.len() ==> (#[trigger] self.awaiting[i]).0.pkid != (
            #[trigger] self.awaiting[j]).0.pkid
        &&& forall|i: int, j: int|
            0 <= i < j < self.ready.len() ==> (#[trigger] self.ready[i]).pkid != (
            #[trigger] self.ready[j]).pkid
        &&& forall|pkid: u16| #[trigger]
            self.pending.contains(pkid) ==> self.queue.contains(pkid)
        &&& forall|pkid: u16| #[trigger]
            self.queue.contains(pkid) ==> self.is_awaiting(pkid) || self.is_ready(pkid)
                || self.pending.contains(pkid)
    }

    /// The queue and the waiting requests.
    pub open spec fn ack_state(self) -> ordered_acker::AckState {
        ordered_acker::AckState { queue: self.queue, pending: self.pending }
    }

    /// The acks after a publish was dispatched to `count` receivers.
    pub open spec fn dispatched(
        self,
        publish: control_packet::PublishView,
        count: nat,
    ) -> AcksView {
        if publish.qos == QoS::AtMostOnce {
            self
        } else if count == 0 {
            AcksView {
                queue: self.queue.push(publish.pkid),
                ready: self.ready.push(publish),
                ..self
            }
        } else {
            AcksView {
                queue: self.queue.push(publish.pkid),
                awaiting: self.awaiting.push((publish, count)),
                ..self
            }
        }
    }

    /// Where the publish with this PKID stands among those that receivers hold tokens of.
    pub open spec fn awaiting_index(self, pkid: u16) -> int
        recommends
            self.is_awaiting(pkid),
    {
        choose|i: int| 0 <= i < self.awaiting.len() && (#[trigger] self.awaiting[i]).0.pkid == pkid
    }

    /// The acks after a receiver acked or dropped its token of the PKID.
    pub open spec fn released(self, pkid: u16) -> AcksView {
        if self.is_awaiting(pkid) {
            let i = self.awaiting_index(pkid);
            let (publish, outstanding) = self.awaiting[i];
            if outstanding == 1 {
                AcksView {
                    awaiting: self.awaiting.remove(i),
                    ready: self.ready.push(publish),
                    ..self
                }
            } else {
                AcksView {
                    awaiting: self.awaiting.update(i, (publish, (outstanding - 1) as nat)),
                    ..self
                }
            }
        } else {
            self
        }
    }

    /// The acks after the ack of the first publish that is ready was requested.
    pub open spec fn next_requested(self) -> AcksView {
        if self.ready.len() > 0 {
            let after = self.ack_state().requested(self.ready[0].pkid);
            AcksView {
                queue: after.queue,
                pending: after.pending,
                ready: self.ready.drop_first(),
                ..self
            }
        } else {
            self
        }
    }

    /// The acks after a waiting PKID asked whether its turn has come.
    pub open spec fn asked_again(self, pkid: u16) -> AcksView {
        if self.pending.contains(pkid) {
            let after = self.ack_state().asked_again(pkid);
            AcksView { queue: after.queue, pending: after.pending, ..self }
        } else {
            self
        }
    }
}

/// Dispatching a publish keeps the acks valid.
pub proof fn lemma_dispatched_valid(
    acks: AcksView,
    publish: control_packet::PublishView,
    count: nat,
)
    requires
        acks.valid(),
        publish.qos != QoS::AtMostOnce,
        PkidAckQueue::refusal(acks.queue, publish.pkid) is None,
    ensures
        acks.dispatched(publish, count).valid(),
{
    let after = acks.dispatched(publish, count);
    assert forall|x: u16| after.queue.contains(x) == (acks.queue.contains(x) || x == publish.pkid)
        by {
        if acks.queue.contains(x) {
            let i = acks.queue.index_of(x);
            assert(after.queue[i] == x);
        }
        assert(after.queue[acks.queue.len() as int] == publish.pkid);
    }
    if count == 0 {
        assert(after.awaiting == acks.awaiting);
        assert forall|x: u16| after.is_ready(x) == (acks.is_ready(x) || x == publish.pkid) by {
            if acks.is_ready(x) {
                let i = choose|i: int|
                    0 <= i < acks.ready.len() && (#[trigger] acks.ready[i]).pkid == x;
                assert(after.ready[i].pkid == x);
            }
            assert(after.ready[acks.ready.len() as int] == publish);
        }
        assert forall|x: u16| acks.is_awaiting(x) implies after.is_awaiting(x) by {}
    } else {
        assert(after.ready == acks.ready);
        assert forall|x: u16| acks.is_ready(x) == after.is_ready(x) by {}
        assert forall|x: u16| acks.is_awaiting(x) || x == publish.pkid implies after.is_awaiting(
            x,
        ) by {
            if acks.is_awaiting(x) {
                let i = acks.awaiting_index(x);
                assert(after.awaiting[i].0.pkid == x);
            } else {
                assert(after.awaiting[acks.awaiting.len() as int].0.pkid == x);
            }
        }
    }
}


/// Releasing a token keeps the acks valid.
pub proof fn lemma_released_valid(acks: AcksView, pkid: u16)
    requires
        acks.valid(),
    ensures
        acks.released(pkid).valid(),
{
    if acks.is_awaiting(pkid) {
        let after = acks.released(pkid);
        let i = acks.awaiting_index(pkid);
        let (publish, outstanding) = acks.awaiting[i];
        assert(after.queue == acks.queue && after.pending == acks.pending);
        if outstanding == 1 {
            assert forall|j: int| 0 <= j < after.awaiting.len() implies #[trigger] after.awaiting[j]
                == acks.awaiting[if j < i { j } else { j + 1 }] by {}
            assert forall|x: u16| after.is_ready(x) == (acks.is_ready(x) || x == pkid) by {
                if acks.is_ready(x) {
                    let k = choose|k: int|
                        0 <= k < acks.ready.len() && (#[trigger] acks.ready[k]).pkid == x;
                    assert(after.ready[k].pkid == x);
                }
                assert(after.ready[acks.ready.len() as int] == publish);
            }
            assert forall|x: u16| acks.is_awaiting(x) && x != pkid implies after.is_awaiting(x) by {
                let k = acks.awaiting_index(x);
                if k < i {
                    assert(after.awaiting[k].0.pkid == x);
                } else {
                    assert(after.awaiting[k - 1].0.pkid == x);
                }
            }
        } else {
            assert(after.ready == acks.ready);
            assert forall|x: u16| acks.is_ready(x) == after.is_ready(x) by {}
            assert forall|x: u16| acks.is_awaiting(x) implies after.is_awaiting(x) by {
                let k = acks.awaiting_index(x);
                assert(after.awaiting[k].0.pkid == x);
            }
            assert forall|j: int| 0 <= j < after.awaiting.len() implies #[trigger] after.awaiting[j].0
                == acks.awaiting[j].0 by {}
        }
    }
}

/// Taking the first PKID from the queue leaves those behind it.
proof fn lemma_queue_drop_first(queue: Seq<u16>)
    requires
        queue.len() > 0,
        queue.no_duplicates(),
    ensures
        queue.drop_first().no_duplicates(),
        forall|x: u16| #[trigger]
            queue.drop_first().contains(x) == (queue.contains(x) && x != queue[0]),
{
    let after = queue.drop_first();
    assert forall|x: u16| #[trigger] after.contains(x) == (queue.contains(x) && x != queue[0]) by {
        if queue.contains(x) && x != queue[0] {
            let i = queue.index_of(x);
            assert(after[i - 1] == x);
        }
        if after.contains(x) {
            let i = after.index_of(x);
            assert(queue[i + 1] == x);
        }
    }
}

/// Requesting an ack keeps the acks valid, and is never answered that it was requested before.
pub proof fn lemma_next_requested_valid(acks: AcksView)
    requires
        acks.valid(),
    ensures
        acks.next_requested().valid(),
        acks.ready.len() > 0 ==> acks.ack_state().request_answer(acks.ready[0].pkid) == Ok::<
            AckTurn,
            crate::error::AckErrorKind,
        >(
            if acks.ack_state().is_turn(acks.ready[0].pkid) {
                AckTurn::Now
            } else {
                AckTurn::Wait
            },
        ),
{
    if acks.ready.len() > 0 {
        let pkid = acks.ready[0].pkid;
        let after = acks.next_requested();
        assert(acks.queue.contains(pkid));
        assert(after.awaiting == acks.awaiting);
        if acks.ack_state().is_turn(pkid) {
            lemma_queue_drop_first(acks.queue);
        }
        assert forall|j: int| 0 <= j < after.ready.len() implies #[trigger] after.ready[j]
            == acks.ready[j + 1] by {}
        assert forall|x: u16| after.is_ready(x) == (acks.is_ready(x) && x != pkid) by {
            if acks.is_ready(x) && x != pkid {
                let k = choose|k: int|
                    0 <= k < acks.ready.len() && (#[trigger] acks.ready[k]).pkid == x;
                assert(after.ready[k - 1].pkid == x);
            }
            if after.is_ready(x) {
                let k = choose|k: int|
                    0 <= k < after.ready.len() && (#[trigger] after.ready[k]).pkid == x;
                assert(acks.ready[k + 1].pkid == x);
            }
        }
        assert(acks.is_ready(pkid));
        assert forall|x: u16| acks.is_awaiting(x) == after.is_awaiting(x) by {}
    }
}

/// Asking again keeps the acks valid.
pub proof fn lemma_asked_again_valid(acks: AcksView, pkid: u16)
    requires
        acks.valid(),
    ensures
        acks.asked_again(pkid).valid(),
{
    if acks.pending.contains(pkid) {
        let after = acks.asked_again(pkid);
        assert(after.ready == acks.ready);
        assert(after.awaiting == acks.awaiting);
        assert forall|x: u16| acks.is_ready(x) == after.is_ready(x) by {}
        assert forall|x: u16| acks.is_awaiting(x) == after.is_awaiting(x) by {}
        if acks.ack_state().is_turn(pkid) {
            lemma_queue_drop_first(acks.queue);
        }
    }
}

/// A publish that receivers hold tokens of.
pub struct AwaitingAck {
    publish: Publish,
    plenary_ack: PlenaryAck,
}

impl View for AwaitingAck {
    type V = (control_packet::PublishView, nat);

    closed spec fn view(&self) -> (control_packet::PublishView, nat) {
        (self.publish@, self.plenary_ack@.outstanding)
    }
}

impl AwaitingAck {
    /// The plenary ack is that of the publish, and no more members will be created.
    pub closed spec fn wf(self) -> bool {
        self.plenary_ack@.commenced && self.plenary_ack@.pkid == self.publish@.pkid
    }
}

/// The acks of the publishes that were dispatched and are not acked yet.
pub struct DispatchedAcks {
    acker: OrderedAcker,
    pkid_ack_queue: PkidAckQueue,
    awaiting: Vec<AwaitingAck>,
    ready: Vec<Publish>,
}

impl View for DispatchedAcks {
    type V = AcksView;

    closed spec fn view(&self) -> AcksView {
        AcksView {
            queue: self.pkid_ack_queue@,
            pending: self.acker@,
            awaiting: self.awaiting@.map_values(|e: AwaitingAck| e@),
            ready: self.ready@.map_values(|p: Publish| p@),
        }
    }
}

impl DispatchedAcks {
    /// The acks are valid, and so are the parts that keep them.
    pub closed spec fn wf(self) -> bool {
        &&& self.pkid_ack_queue.wf()
        &&& forall|i: int| 0 <= i < self.awaiting@.len() ==> (#[trigger] self.awaiting@[i]).wf()
        &&& self@.valid()
    }

    /// No publish has been dispatched yet.
    pub fn new() -> (r: Self)
        ensures
            r.wf(),
            r@ == (AcksView {
                queue: Seq::empty(),
                pending: Set::empty(),
                awaiting: Seq::empty(),
                ready: Seq::empty(),
            }),
    {
        let r = DispatchedAcks {
            acker: OrderedAcker::new(),
            pkid_ack_queue: PkidAckQueue::default(),
            awaiting: Vec::new(),
            ready: Vec::new(),
        };
        assert(r@ =~= AcksView {
            queue: Seq::empty(),
            pending: Set::empty(),
            awaiting: Seq::empty(),
            ready: Seq::empty(),
        });
        r
    }

    /// The queue of PKIDs that are yet to be acked.
    pub fn pkid_ack_queue(&self) -> (r: &PkidAckQueue)
        requires
            self.wf(),
        ensures
            r.wf(),
            r@ == self@.queue,
    {
        &self.pkid_ack_queue
    }

    /// A publish whose PKID can join the queue was dispatched: to as many receivers as its plenary
    /// ack has members.
    pub fn dispatched(&mut self, publish: &Publish, plenary_ack: PlenaryAck)
        requires
            old(self).wf(),
            publish@.qos != QoS::AtMostOnce,
            PkidAckQueue::refusal(old(self)@.queue, publish@.pkid) is None,
            plenary_ack@.pkid == publish@.pkid,
        ensures
            final(self).wf(),
            final(self)@ == old(self)@.dispatched(publish@, plenary_ack@.outstanding),
    {
        let mut plenary_ack = plenary_ack;
        proof {
            lemma_dispatched_valid(self@, publish@, plenary_ack@.outstanding);
        }
        let _ = self.pkid_ack_queue.insert(publish.pkid);
        // Once all dispatches have been made, commence the plenary ack
        if plenary_ack.commence() {
            self.ready.push(publish.clone());
        } else {
            self.awaiting.push(AwaitingAck { publish: publish.clone(), plenary_ack });
        }
        assert(self@ =~= old(self)@.dispatched(publish@, plenary_ack@.outstanding));
    }

    /// A receiver acked or dropped its token of the PKID. Returns whether that made the publish
    /// ready.
    pub fn release(&mut self, pkid: u16) -> (r: bool)
        requires
            old(self).wf(),
        ensures
            final(self).wf(),
            final(self)@ == old(self)@.released(pkid),
            r == (final(self)@.ready.len() > old(self)@.ready.len()),
    {
        let ghost before = self@;
        proof {
            lemma_released_valid(before, pkid);
        }
        let n = self.awaiting.len();
        for i in 0..n
            invariant
                n == self.awaiting@.len(),
                self.wf(),
                *self == *old(self),
                before == self@,
                before.released(pkid).valid(),
                forall|j: int| 0 <= j < i ==> (#[trigger] before.awaiting[j]).0.pkid != pkid,
        {
            assert(before.awaiting[i as int] == self.awaiting@[i as int]@);
            if self.awaiting[i].publish.pkid == pkid {
                assert(before.is_awaiting(pkid) && before.awaiting_index(pkid) == i);
                let due = self.awaiting[i].plenary_ack.member_done();
                if due {
                    let done = self.awaiting.remove(i);
                    self.ready.push(done.publish);
                }
                assert(self@.awaiting =~= before.released(pkid).awaiting);
                assert(self@.ready =~= before.released(pkid).ready);
                assert(self@ =~= before.released(pkid));
                return due;
            }
        }
        assert(!before.is_awaiting(pkid));
        false
    }

    /// Request the ack of the next publish that is ready, if there is one: of that which became ready
    /// first.
    ///
    /// On [`AckTurn::Now`] its ack is to be sent; on [`AckTurn::Wait`] it waits for the acks of
    /// publishes that were received earlier.
    pub fn request_next(&mut self) -> (r: Option<(Publish, AckTurn)>)
        requires
            old(self).wf(),
        ensures
            final(self).wf(),
            final(self)@ == old(self)@.next_requested(),
            old(self)@.ready.len() == 0 ==> r is None,
            old(self)@.ready.len() > 0 ==> {
                &&& r matches Some((publish, turn))
                &&& publish@ == old(self)@.ready[0]
                &&& turn == if old(self)@.ack_state().is_turn(old(self)@.ready[0].pkid) {
                    AckTurn::Now
                } else {
                    AckTurn::Wait
                }
            },
    {
        let ghost before = self@;
        proof {
            lemma_next_requested_valid(before);
        }
        if self.ready.len() == 0 {
            return None;
        }
        let publish = self.ready.remove(0);
        let turn = match self.acker.ordered_ack(&mut self.pkid_ack_queue, &publish) {
            Ok(turn) => turn,
            Err(_) => {
                assert(false);
                AckTurn::NotNeeded
            },
        };
        assert(self@.ready =~= before.ready.drop_first());
        assert(self@ =~= before.next_requested());
        Some((publish, turn))
    }

    /// Whether the turn of a waiting PKID has come. If so, its ack is to be sent.
    pub fn ask_again(&mut self, pkid: u16) -> (r: bool)
        requires
            old(self).wf(),
        ensures
            final(self).wf(),
            final(self)@ == old(self)@.asked_again(pkid),
            r == (old(self)@.pending.contains(pkid) && old(self)@.ack_state().is_turn(pkid)),
    {
        let ghost before = self@;
        proof {
            lemma_asked_again_valid(before, pkid);
        }
        if !self.acker.is_waiting(pkid) {
            return false;
        }
        let r = self.acker.ask_again(&mut self.pkid_ack_queue, pkid);
        assert(self@ =~= before.asked_again(pkid));
        r
    }
}

/// The acks of dispatched publishes go through the queue one after the other, as events of the
/// acker: a dispatch is a receipt, releases are no events, and requests and further questions are
/// the acker's own. So they are sent in the order in which the publishes were received, as
/// [`law_acks_in_order_received`](ordered_acker::law_acks_in_order_received) states of every run of
/// such events.
pub proof fn law_steps_are_events_of_the_acker(
    acks: AcksView,
    publish: control_packet::PublishView,
    count: nat,
    pkid: u16,
)
    requires
        acks.valid(),
        publish.qos != QoS::AtMostOnce,
        PkidAckQueue::refusal(acks.queue, publish.pkid) is None,
    ensures
        acks.dispatched(publish, count).ack_state() == acks.ack_state().received(publish.pkid),
        acks.released(pkid).ack_state() == acks.ack_state(),
        acks.next_requested().ack_state() == if acks.ready.len() > 0 {
            acks.ack_state().requested(acks.ready[0].pkid)
        } else {
            acks.ack_state()
        },
        acks.asked_again(pkid).ack_state() == if acks.pending.contains(pkid) {
            acks.ack_state().asked_again(pkid)
        } else {
            acks.ack_state()
        },
{
}

/// Between a dispatch and its ack, a PKID is in exactly one stage: held by receivers, ready to be
/// requested, or waiting for its turn. No PKID is lost.
pub proof fn law_each_pkid_in_one_stage(acks: DispatchedAcks, pkid: u16)
    requires
        acks.wf(),
    ensures
        acks@.queue.contains(pkid) <==> acks@.is_awaiting(pkid) || acks@.is_ready(pkid)
            || acks@.pending.contains(pkid),
        !(acks@.is_awaiting(pkid) && acks@.is_ready(pkid)),
        !(acks@.is_awaiting(pkid) && acks@.pending.contains(pkid)),
        !(acks@.is_ready(pkid) && acks@.pending.contains(pkid)),
{
}

/// Where receivers hold no tokens and no publish is ready, the acks are not stuck: the first PKID of
/// the queue is waiting, and asking again finds that its turn has come.
pub proof fn law_acks_not_stuck(acks: DispatchedAcks)
    requires
        acks.wf(),
        acks@.awaiting.len() == 0,
        acks@.ready.len() == 0,
        acks@.queue.len() > 0,
    ensures
        acks@.pending.contains(acks@.queue[0]),
        acks@.ack_state().is_turn(acks@.queue[0]),
        acks@.asked_again(acks@.queue[0]).queue == acks@.queue.drop_first(),
{
    assert(acks@.queue.contains(acks@.queue[0]));
}

impl AcksView {
    /// The acks after receivers acked or dropped `n` tokens of the PKID.
    pub open spec fn released_times(self, pkid: u16, n: nat) -> AcksView
        decreases n,
    {
        if n == 0 {
            self
        } else {
            self.released_times(pkid, (n - 1) as nat).released(pkid)
        }
    }
}

/// A publish is ready once as many tokens were acked or dropped as there were receivers, and not
/// before.
pub proof fn law_ready_when_all_receivers_are_done(
    acks: AcksView,
    publish: control_packet::PublishView,
    count: nat,
    n: nat,
)
    requires
        acks.valid(),
        publish.qos != QoS::AtMostOnce,
        PkidAckQueue::refusal(acks.queue, publish.pkid) is None,
        n <= count,
    ensures
        acks.dispatched(publish, count).released_times(publish.pkid, n).is_ready(publish.pkid)
            <==> n == count,
        n == count ==> acks.dispatched(publish, count).released_times(publish.pkid, n).ready
            == acks.ready.push(publish),
{
    lemma_dispatched_valid(acks, publish, count);
    let start = acks.dispatched(publish, count);
    if count > 0 {
        let last = acks.awaiting.len() as int;
        assert(start.awaiting[last] == (publish, count));
        assert(start.is_awaiting(publish.pkid));
        lemma_released_times(start, publish.pkid, last, n);
    } else {
        assert(start.ready[acks.ready.len() as int] == publish);
    }
}

/// After `n` releases of a PKID, fewer than its tokens, that many fewer are left.
proof fn lemma_released_times(acks: AcksView, pkid: u16, i: int, n: nat)
    requires
        acks.valid(),
        0 <= i < acks.awaiting.len(),
        acks.awaiting[i].0.pkid == pkid,
        n <= acks.awaiting[i].1,
    ensures
        acks.released_times(pkid, n).valid(),
        n < acks.awaiting[i].1 ==> acks.released_times(pkid, n) == (AcksView {
            awaiting: acks.awaiting.update(i, (acks.awaiting[i].0, (acks.awaiting[i].1 - n) as nat)),
            ..acks
        }) && !acks.released_times(pkid, n).is_ready(pkid),
        n == acks.awaiting[i].1 ==> acks.released_times(pkid, n).ready == acks.ready.push(
            acks.awaiting[i].0,
        ) && acks.released_times(pkid, n).is_ready(pkid),
    decreases n,
{
    if n == 0 {
        assert(acks.awaiting.update(i, acks.awaiting[i]) =~= acks.awaiting);
    } else {
        let before = acks.released_times(pkid, (n - 1) as nat);
        lemma_released_times(acks, pkid, i, (n - 1) as nat);
        lemma_released_valid(before, pkid);
        assert(before.awaiting[i].0.pkid == pkid);
        assert(before.is_awaiting(pkid) && before.awaiting_index(pkid) == i);
        let after = acks.released_times(pkid, n);
        if n < acks.awaiting[i].1 {
            assert(after.awaiting =~= acks.awaiting.update(
                i,
                (acks.awaiting[i].0, (acks.awaiting[i].1 - n) as nat),
            ));
            assert(after.awaiting[i].0.pkid == pkid);
        } else {
            assert(after.ready[acks.ready.len() as int].pkid == pkid);
        }
    }
}

/// What receivers do with the tokens of one publish leaves the other publishes that receivers hold
/// tokens of as they are.
pub proof fn law_releases_are_independent(acks: AcksView, pkid: u16, other: u16)
    requires
        acks.valid(),
        pkid != other,
        acks.is_awaiting(other),
    ensures
        acks.released(pkid).is_awaiting(other),
        acks.released(pkid).awaiting[acks.released(pkid).awaiting_index(other)]
            == acks.awaiting[acks.awaiting_index(other)],
{
    lemma_released_valid(acks, pkid);
    let after = acks.released(pkid);
    let k = acks.awaiting_index(other);
    if acks.is_awaiting(pkid) {
        let i = acks.awaiting_index(pkid);
        if acks.awaiting[i].1 == 1 && k > i {
            assert(after.awaiting[k - 1] == acks.awaiting[k]);
            assert(after.is_awaiting(other) && after.awaiting_index(other) == k - 1);
        } else {
            assert(after.awaiting[k] == acks.awaiting[k]);
            assert(after.is_awaiting(other) && after.awaiting_index(other) == k);
        }
    }
}

/// A token that is acked or dropped is one less for its publish, which is ready when it was the last;
/// a token of a PKID that receivers hold no tokens of changes nothing.
pub proof fn law_release_of_one_token(acks: AcksView, pkid: u16, i: int)
    requires
        acks.valid(),
    ensures
        acks.released(pkid).queue == acks.queue,
        acks.released(pkid).pending == acks.pending,
        0 <= i < acks.awaiting.len() && acks.awaiting[i].0.pkid == pkid && acks.awaiting[i].1 == 1
            ==> {
            &&& acks.released(pkid).awaiting == acks.awaiting.remove(i)
            &&& acks.released(pkid).ready == acks.ready.push(acks.awaiting[i].0)
        },
        0 <= i < acks.awaiting.len() && acks.awaiting[i].0.pkid == pkid && acks.awaiting[i].1 > 1
            ==> {
            &&& acks.released(pkid).awaiting == acks.awaiting.update(
                i,
                (acks.awaiting[i].0, (acks.awaiting[i].1 - 1) as nat),
            )
            &&& acks.released(pkid).ready == acks.ready
        },
        (forall|j: int|
            0 <= j < acks.awaiting.len() ==> (#[trigger] acks.awaiting[j]).0.pkid != pkid)
            ==> acks.released(pkid) == acks,
{
    if 0 <= i < acks.awaiting.len() && acks.awaiting[i].0.pkid == pkid {
        assert(acks.is_awaiting(pkid));
        assert(acks.awaiting_index(pkid) == i);
    }
}

/// The publish that became ready first is the next whose ack is requested: it is acked at once, and
/// leaves the queue, if it is the first there, and otherwise waits. The other publishes that are ready
/// and those that receivers hold tokens of are not touched.
pub proof fn law_request_of_next_ack(acks: AcksView)
    requires
        acks.valid(),
    ensures
        acks.ready.len() == 0 ==> acks.next_requested() == acks,
        acks.ready.len() > 0 ==> {
            &&& acks.next_requested().ready == acks.ready.drop_first()
            &&& acks.next_requested().awaiting == acks.awaiting
            &&& acks.queue[0] == acks.ready[0].pkid ==> {
                &&& acks.next_requested().queue == acks.queue.drop_first()
                &&& acks.next_requested().pending == acks.pending
            }
            &&& acks.queue[0] != acks.ready[0].pkid ==> {
                &&& acks.next_requested().queue == acks.queue
                &&& acks.next_requested().pending == acks.pending.insert(acks.ready[0].pkid)
            }
        },
{
    if acks.ready.len() > 0 {
        assert(acks.queue.contains(acks.ready[0].pkid));
    }
}

/// A PKID that waits and is the first of the queue leaves both when it asks again; otherwise asking
/// changes nothing.
pub proof fn law_question_of_waiting_pkid(acks: AcksView, pkid: u16)
    ensures
        acks.pending.contains(pkid) && acks.queue.len() > 0 && acks.queue[0] == pkid ==> {
            &&& acks.asked_again(pkid).queue == acks.queue.drop_first()
            &&& acks.asked_again(pkid).pending == acks.pending.remove(pkid)
            &&& acks.asked_again(pkid).ready == acks.ready
            &&& acks.asked_again(pkid).awaiting == acks.awaiting
        },
        !(acks.pending.contains(pkid) && acks.queue.len() > 0 && acks.queue[0] == pkid)
            ==> acks.asked_again(pkid) == acks,
{
}

} // verus!
