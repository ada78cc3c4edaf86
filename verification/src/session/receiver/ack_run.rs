//! What holds of a whole run of dispatches, releases and acks.
//!
//! The steps of a run are what
//! [`dispatch_publish`](crate::session::receiver::IncomingPublishDispatcher::dispatch_publish),
//! [`release`](crate::session::receiver::IncomingPublishDispatcher::release),
//! [`request_next_ack`](crate::session::receiver::IncomingPublishDispatcher::request_next_ack) and
//! [`ask_again`](crate::session::receiver::IncomingPublishDispatcher::ask_again) do to the acks of a
//! dispatcher, and an ack is to be sent where the last two say so.

use vstd::prelude::*;

use crate::control_packet::{self, QoS};
use crate::session::receiver::dispatched_acks::{
    self, lemma_asked_again_valid, lemma_dispatched_valid, lemma_next_requested_valid,
    lemma_released_valid,
};
use crate::session::receiver::ordered_acker::PkidAckQueue;

verus! {

/// A step of a run.
pub enum Step {
    /// A publish was dispatched to so many receivers.
    Dispatched(control_packet::PublishView, nat),
    /// A receiver acked or dropped its token of the PKID.
    Released(u16),
    /// The ack of the next publish that is ready was requested.
    Requested,
    /// The PKID asked again whether its turn has come.
    AskedAgain(u16),
}

/// A publish that needs an ack and was dispatched.
pub struct Dispatch {
    pub publish: control_packet::PublishView,
    /// The number of its receivers, each of which got a token.
    pub tokens: nat,
    /// The number of tokens that were acked or dropped.
    pub released: nat,
}

/// A run of a dispatcher, and what came of it.
pub struct AckRun {
    pub acks: dispatched_acks::AcksView,
    /// The publishes that need an ack, in the order in which they were dispatched.
    pub dispatches: Seq<Dispatch>,
    /// The PKIDs of the acks that were to be sent, in that order.
    pub acked: Seq<u16>,
}

impl AckRun {
    /// Nothing has been dispatched yet.
    pub open spec fn empty() -> AckRun {
        AckRun {
            acks: dispatched_acks::AcksView {
                queue: Seq::empty(),
                pending: Set::empty(),
                awaiting: Seq::empty(),
                ready: Seq::empty(),
            },
            dispatches: Seq::empty(),
            acked: Seq::empty(),
        }
    }

    /// Where the dispatch stands whose ack is yet to be sent and that has this PKID.
    pub open spec fn index_of(self, pkid: u16) -> int {
        self.acked.len() + self.acks.queue.index_of(pkid)
    }

    /// Whether the ack of the next publish that is ready is to be sent when it is requested.
    pub open spec fn next_is_acked(self) -> bool {
        self.acks.ready.len() > 0 && self.acks.ack_state().is_turn(self.acks.ready[0].pkid)
    }

    /// Whether the ack of the PKID is to be sent when it asks again.
    pub open spec fn is_acked_when_asking(self, pkid: u16) -> bool {
        self.acks.pending.contains(pkid) && self.acks.ack_state().is_turn(pkid)
    }

    /// The run after one more step. A publish that needs no ack or cannot be dispatched changes
    /// nothing, nor does a token that is none of those that receivers hold.
    pub open spec fn after(self, step: Step) -> AckRun {
        match step {
            Step::Dispatched(publish, tokens) => if publish.qos == QoS::AtMostOnce
                || PkidAckQueue::refusal(self.acks.queue, publish.pkid) is Some {
                self
            } else {
                AckRun {
                    acks: self.acks.dispatched(publish, tokens),
                    dispatches: self.dispatches.push(Dispatch { publish, tokens, released: 0 }),
                    ..self
                }
            },
            Step::Released(pkid) => if self.acks.is_awaiting(pkid) {
                let i = self.index_of(pkid);
                AckRun {
                    acks: self.acks.released(pkid),
                    dispatches: self.dispatches.update(
                        i,
                        Dispatch {
                            released: self.dispatches[i].released + 1,
                            ..self.dispatches[i]
                        },
                    ),
                    ..self
                }
            } else {
                self
            },
            Step::Requested => AckRun {
                acks: self.acks.next_requested(),
                acked: if self.next_is_acked() {
                    self.acked.push(self.acks.ready[0].pkid)
                } else {
                    self.acked
                },
                ..self
            },
            Step::AskedAgain(pkid) => AckRun {
                acks: self.acks.asked_again(pkid),
                acked: if self.is_acked_when_asking(pkid) {
                    self.acked.push(pkid)
                } else {
                    self.acked
                },
                ..self
            },
        }
    }

    /// The run after these steps.
    pub open spec fn after_all(self, steps: Seq<Step>) -> AckRun
        decreases steps.len(),
    {
        if steps.len() == 0 {
            self
        } else {
            self.after_all(steps.drop_last()).after(steps.last())
        }
    }

    /// The run of these steps, from a new dispatcher.
    pub open spec fn of(steps: Seq<Step>) -> AckRun {
        AckRun::empty().after_all(steps)
    }

    /// How far the ack of the dispatch at `i` is, which is yet to be sent.
    spec fn is_tracked(self, i: int) -> bool {
        let d = self.dispatches[i];
        let pkid = d.publish.pkid;
        &&& self.acks.queue[i - self.acked.len()] == pkid
        &&& self.acks.is_awaiting(pkid) ==> {
            &&& self.acks.awaiting[self.acks.awaiting_index(pkid)] == (
                d.publish,
                (d.tokens - d.released) as nat,
            )
            &&& d.released < d.tokens
        }
        &&& !self.acks.is_awaiting(pkid) ==> d.released == d.tokens
        &&& forall|k: int|
            0 <= k < self.acks.ready.len() && (#[trigger] self.acks.ready[k]).pkid == pkid
                ==> self.acks.ready[k] == d.publish
    }

    /// The acks that were sent are those of the first dispatches, and the queue holds the others.
    spec fn valid(self) -> bool {
        &&& self.acks.valid()
        &&& self.acked.len() + self.acks.queue.len() == self.dispatches.len()
        &&& forall|i: int|
            0 <= i < self.acked.len() ==> {
                &&& #[trigger] self.acked[i] == self.dispatches[i].publish.pkid
                &&& self.dispatches[i].released == self.dispatches[i].tokens
            }
        &&& forall|i: int|
            self.acked.len() <= i < self.dispatches.len() ==> #[trigger] self.is_tracked(i)
    }
}

/// A new run is valid.
proof fn lemma_empty_valid()
    ensures
        AckRun::empty().valid(),
{
}

/// Where the PKID is in the queue of a valid run, and which dispatch is its own.
proof fn lemma_index_of(run: AckRun, i: int)
    requires
        run.valid(),
        run.acked.len() <= i < run.dispatches.len(),
    ensures
        run.acks.queue.contains(run.dispatches[i].publish.pkid),
        run.index_of(run.dispatches[i].publish.pkid) == i,
        run.is_tracked(i),
{
    let k = i - run.acked.len();
    let pkid = run.dispatches[i].publish.pkid;
    assert(run.is_tracked(i));
    assert(run.acks.queue[k] == pkid);
    assert(run.acks.queue.index_of(pkid) == k);
}

/// Two dispatches whose acks are yet to be sent have different PKIDs.
proof fn lemma_pkids_differ(run: AckRun, i: int, j: int)
    requires
        run.valid(),
        run.acked.len() <= i < j < run.dispatches.len(),
    ensures
        run.dispatches[i].publish.pkid != run.dispatches[j].publish.pkid,
{
    assert(run.is_tracked(i) && run.is_tracked(j));
    assert(run.acks.queue[i - run.acked.len()] != run.acks.queue[j - run.acked.len()]);
}

/// A dispatch leaves it told how far every ack is.
proof fn lemma_dispatch_tracked(
    run: AckRun,
    publish: control_packet::PublishView,
    tokens: nat,
    i: int,
)
    requires
        run.valid(),
        publish.qos != QoS::AtMostOnce,
        PkidAckQueue::refusal(run.acks.queue, publish.pkid) is None,
        run.acked.len() <= i <= run.dispatches.len(),
    ensures
        run.after(Step::Dispatched(publish, tokens)).is_tracked(i),
{
    let after = run.after(Step::Dispatched(publish, tokens));
    lemma_dispatched_valid(run.acks, publish, tokens);
    if i < run.dispatches.len() {
        lemma_index_of(run, i);
        let pkid = run.dispatches[i].publish.pkid;
        assert(pkid != publish.pkid);
        assert(after.acks.queue[i - run.acked.len()] == pkid);
        if run.acks.is_awaiting(pkid) {
            let k = run.acks.awaiting_index(pkid);
            assert(after.acks.awaiting[k].0.pkid == pkid);
            assert(after.acks.is_awaiting(pkid));
            assert(after.acks.awaiting_index(pkid) == k);
        }
        if after.acks.is_awaiting(pkid) {
            let k = after.acks.awaiting_index(pkid);
            assert(k < run.acks.awaiting.len());
            assert(run.acks.awaiting[k].0.pkid == pkid);
        }
        assert forall|k: int|
            0 <= k < after.acks.ready.len() && (#[trigger] after.acks.ready[k]).pkid
                == pkid implies after.acks.ready[k] == run.dispatches[i].publish by {
            assert(k < run.acks.ready.len());
            assert(after.acks.ready[k] == run.acks.ready[k]);
        }
    } else {
        let pkid = publish.pkid;
        assert(after.acks.queue[i - run.acked.len()] == pkid);
        if tokens > 0 {
            let k = run.acks.awaiting.len() as int;
            assert(after.acks.awaiting[k] == (publish, tokens));
            assert(after.acks.is_awaiting(pkid));
            assert(after.acks.awaiting_index(pkid) == k);
        } else if after.acks.is_awaiting(pkid) {
            let k = after.acks.awaiting_index(pkid);
            assert(run.acks.queue.contains(run.acks.awaiting[k].0.pkid));
        }
        assert forall|k: int|
            0 <= k < after.acks.ready.len() && (#[trigger] after.acks.ready[k]).pkid
                == pkid implies after.acks.ready[k] == publish by {
            if k < run.acks.ready.len() {
                assert(after.acks.ready[k] == run.acks.ready[k]);
                assert(run.acks.queue.contains(run.acks.ready[k].pkid));
            }
        }
    }
}

/// A dispatch keeps a run valid.
proof fn lemma_dispatch_valid(run: AckRun, publish: control_packet::PublishView, tokens: nat)
    requires
        run.valid(),
    ensures
        run.after(Step::Dispatched(publish, tokens)).valid(),
{
    let after = run.after(Step::Dispatched(publish, tokens));
    if publish.qos != QoS::AtMostOnce && PkidAckQueue::refusal(run.acks.queue, publish.pkid) is None {
        lemma_dispatched_valid(run.acks, publish, tokens);
        assert forall|i: int| after.acked.len() <= i < after.dispatches.len() implies
            #[trigger] after.is_tracked(i) by {
            lemma_dispatch_tracked(run, publish, tokens, i);
        }
        lemma_valid_if(run, after);
    }
}

/// What is left to show of a run whose acks sent are those of a valid one.
proof fn lemma_valid_if(run: AckRun, after: AckRun)
    requires
        run.valid(),
        after.acks.valid(),
        after.acked == run.acked,
        after.acked.len() + after.acks.queue.len() == after.dispatches.len(),
        after.dispatches.len() >= run.dispatches.len(),
        forall|i: int|
            0 <= i < run.acked.len() ==> #[trigger] after.dispatches[i] == run.dispatches[i],
        forall|i: int|
            after.acked.len() <= i < after.dispatches.len() ==> #[trigger] after.is_tracked(i),
    ensures
        after.valid(),
{
    assert forall|i: int| 0 <= i < after.acked.len() implies #[trigger] after.acked[i]
        == after.dispatches[i].publish.pkid && after.dispatches[i].released
        == after.dispatches[i].tokens by {
        assert(run.acked[i] == run.dispatches[i].publish.pkid);
    }
}

/// A PKID that receivers hold tokens of is that of one dispatch.
proof fn lemma_own_dispatch(run: AckRun, pkid: u16)
    requires
        run.valid(),
        run.acks.is_awaiting(pkid),
    ensures
        run.acked.len() <= run.index_of(pkid) < run.dispatches.len(),
        run.dispatches[run.index_of(pkid)].publish.pkid == pkid,
        run.acks.awaiting[run.acks.awaiting_index(pkid)].0
            == run.dispatches[run.index_of(pkid)].publish,
{
    let w = run.acks.awaiting_index(pkid);
    assert(run.acks.queue.contains(run.acks.awaiting[w].0.pkid));
    let own = run.index_of(pkid);
    lemma_index_of(run, own);
    assert(run.acks.queue[own - run.acked.len()] == pkid);
}

/// A release leaves it told how far the ack is whose token it was.
proof fn lemma_release_tracked_own(run: AckRun, pkid: u16)
    requires
        run.valid(),
        run.acks.is_awaiting(pkid),
    ensures
        run.after(Step::Released(pkid)).is_tracked(run.index_of(pkid)),
{
    let after = run.after(Step::Released(pkid));
    lemma_released_valid(run.acks, pkid);
    lemma_own_dispatch(run, pkid);
    let own = run.index_of(pkid);
    lemma_index_of(run, own);
    let w = run.acks.awaiting_index(pkid);
    if run.acks.awaiting[w].1 == 1 {
        assert(after.acks.ready[run.acks.ready.len() as int].pkid == pkid);
        assert(after.acks.is_ready(pkid));
        if after.acks.is_awaiting(pkid) {
            let k = after.acks.awaiting_index(pkid);
            assert(after.acks.awaiting[k].0.pkid == pkid);
            assert(false);
        }
        assert forall|k: int|
            0 <= k < after.acks.ready.len() && (#[trigger] after.acks.ready[k]).pkid
                == pkid implies after.acks.ready[k] == run.dispatches[own].publish by {
            if k < run.acks.ready.len() {
                assert(after.acks.ready[k] == run.acks.ready[k]);
                assert(run.acks.is_ready(pkid));
            }
        }
    } else {
        assert(after.acks.awaiting[w].0.pkid == pkid);
        assert(after.acks.is_awaiting(pkid));
        assert(after.acks.awaiting_index(pkid) == w);
    }
}

/// A release leaves it told how far every other ack is.
proof fn lemma_release_tracked_other(run: AckRun, pkid: u16, i: int)
    requires
        run.valid(),
        run.acks.is_awaiting(pkid),
        run.acked.len() <= i < run.dispatches.len(),
        i != run.index_of(pkid),
    ensures
        run.after(Step::Released(pkid)).is_tracked(i),
{
    let after = run.after(Step::Released(pkid));
    lemma_released_valid(run.acks, pkid);
    lemma_own_dispatch(run, pkid);
    let own = run.index_of(pkid);
    lemma_index_of(run, i);
    let q = run.dispatches[i].publish.pkid;
    if i < own {
        lemma_pkids_differ(run, i, own);
    } else {
        lemma_pkids_differ(run, own, i);
    }
    let w = run.acks.awaiting_index(pkid);
    if run.acks.is_awaiting(q) {
        dispatched_acks::law_releases_are_independent(run.acks, pkid, q);
    }
    if after.acks.is_awaiting(q) {
        let k = after.acks.awaiting_index(q);
        if run.acks.awaiting[w].1 == 1 {
            let k0 = if k < w {
                k
            } else {
                k + 1
            };
            assert(after.acks.awaiting[k] == run.acks.awaiting[k0]);
            assert(run.acks.awaiting[k0].0.pkid == q);
        } else {
            assert(run.acks.awaiting[k].0.pkid == q);
        }
        assert(run.acks.is_awaiting(q));
    }
    assert forall|k: int|
        0 <= k < after.acks.ready.len() && (#[trigger] after.acks.ready[k]).pkid
            == q implies after.acks.ready[k] == run.dispatches[i].publish by {
        if k < run.acks.ready.len() {
            assert(after.acks.ready[k] == run.acks.ready[k]);
        }
    }
}

/// A release keeps a run valid.
proof fn lemma_release_valid(run: AckRun, pkid: u16)
    requires
        run.valid(),
    ensures
        run.after(Step::Released(pkid)).valid(),
{
    let after = run.after(Step::Released(pkid));
    if run.acks.is_awaiting(pkid) {
        lemma_released_valid(run.acks, pkid);
        lemma_own_dispatch(run, pkid);
        assert forall|i: int| after.acked.len() <= i < after.dispatches.len() implies
            #[trigger] after.is_tracked(i) by {
            if i == run.index_of(pkid) {
                lemma_release_tracked_own(run, pkid);
            } else {
                lemma_release_tracked_other(run, pkid, i);
            }
        }
        lemma_valid_if(run, after);
    }
}

/// A run stays valid where the first PKID of its queue is acked, or none is, and no token changes
/// hands.
proof fn lemma_ack_step_valid(run: AckRun, after: AckRun)
    requires
        run.valid(),
        after.acks.valid(),
        after.dispatches == run.dispatches,
        after.acks.awaiting == run.acks.awaiting,
        forall|k: int|
            0 <= k < after.acks.ready.len() ==> run.acks.ready.contains(
                #[trigger] after.acks.ready[k],
            ),
        if after.acked == run.acked {
            after.acks.queue == run.acks.queue
        } else {
            &&& run.acks.queue.len() > 0
            &&& after.acked == run.acked.push(run.acks.queue[0])
            &&& after.acks.queue == run.acks.queue.drop_first()
            &&& !run.acks.is_awaiting(run.acks.queue[0])
        },
    ensures
        after.valid(),
{
    let first = run.acked.len() as int;
    if after.acked != run.acked {
        lemma_index_of(run, first);
    }
    assert forall|i: int| after.acked.len() <= i < after.dispatches.len() implies
        #[trigger] after.is_tracked(i) by {
        lemma_index_of(run, i);
        let pkid = run.dispatches[i].publish.pkid;
        assert(after.acks.queue[i - after.acked.len()] == run.acks.queue[i - run.acked.len()]);
        assert(after.acks.is_awaiting(pkid) == run.acks.is_awaiting(pkid));
        assert forall|k: int|
            0 <= k < after.acks.ready.len() && (#[trigger] after.acks.ready[k]).pkid
                == pkid implies after.acks.ready[k] == run.dispatches[i].publish by {
            assert(run.acks.ready.contains(after.acks.ready[k]));
            let j = run.acks.ready.index_of(after.acks.ready[k]);
            assert(run.acks.ready[j].pkid == pkid);
        }
    }
}

/// Requesting an ack keeps a run valid.
proof fn lemma_request_valid(run: AckRun)
    requires
        run.valid(),
    ensures
        run.after(Step::Requested).valid(),
{
    let after = run.after(Step::Requested);
    lemma_next_requested_valid(run.acks);
    if run.acks.ready.len() > 0 {
        let pkid = run.acks.ready[0].pkid;
        assert(run.acks.is_ready(pkid));
        if run.acks.is_awaiting(pkid) {
            let k = run.acks.awaiting_index(pkid);
            assert(!run.acks.is_ready(run.acks.awaiting[k].0.pkid));
        }
        assert forall|k: int| 0 <= k < after.acks.ready.len() implies run.acks.ready.contains(
            #[trigger] after.acks.ready[k],
        ) by {
            assert(after.acks.ready[k] == run.acks.ready[k + 1]);
        }
    }
    lemma_ack_step_valid(run, after);
}

/// Asking again keeps a run valid.
proof fn lemma_ask_valid(run: AckRun, pkid: u16)
    requires
        run.valid(),
    ensures
        run.after(Step::AskedAgain(pkid)).valid(),
{
    let after = run.after(Step::AskedAgain(pkid));
    lemma_asked_again_valid(run.acks, pkid);
    if run.acks.is_awaiting(pkid) {
        let k = run.acks.awaiting_index(pkid);
        assert(!run.acks.pending.contains(run.acks.awaiting[k].0.pkid));
    }
    assert forall|k: int| 0 <= k < after.acks.ready.len() implies run.acks.ready.contains(
        #[trigger] after.acks.ready[k],
    ) by {
        assert(after.acks.ready[k] == run.acks.ready[k]);
    }
    lemma_ack_step_valid(run, after);
}

/// Steps keep a run valid.
proof fn lemma_steps_valid(run: AckRun, steps: Seq<Step>)
    requires
        run.valid(),
    ensures
        run.after_all(steps).valid(),
    decreases steps.len(),
{
    if steps.len() > 0 {
        lemma_steps_valid(run, steps.drop_last());
        let before = run.after_all(steps.drop_last());
        match steps.last() {
            Step::Dispatched(publish, tokens) => lemma_dispatch_valid(before, publish, tokens),
            Step::Released(pkid) => lemma_release_valid(before, pkid),
            Step::Requested => lemma_request_valid(before),
            Step::AskedAgain(pkid) => lemma_ask_valid(before, pkid),
        }
    }
}

/// At any time of any run, the acks that were sent are those of the publishes that were dispatched
/// first, one ack for each, in the order of the dispatches, and each was sent only after all tokens
/// of its publish had been acked or dropped.
pub proof fn law_each_publish_acked_once_in_order(steps: Seq<Step>, i: int)
    ensures
        AckRun::of(steps).acked.len() <= AckRun::of(steps).dispatches.len(),
        0 <= i < AckRun::of(steps).acked.len() ==> {
            &&& AckRun::of(steps).acked[i] == AckRun::of(steps).dispatches[i].publish.pkid
            &&& AckRun::of(steps).dispatches[i].released == AckRun::of(steps).dispatches[i].tokens
        },
        0 <= i < AckRun::of(steps).dispatches.len() ==> AckRun::of(steps).dispatches[i].released
            <= AckRun::of(steps).dispatches[i].tokens,
{
    let run = AckRun::of(steps);
    lemma_empty_valid();
    lemma_steps_valid(AckRun::empty(), steps);
    if 0 <= i < run.acked.len() {
        assert(run.acked[i] == run.dispatches[i].publish.pkid);
    } else if run.acked.len() <= i < run.dispatches.len() {
        assert(run.is_tracked(i));
    }
}

impl AckRun {
    /// The run after the acks of all publishes that are ready were requested.
    pub open spec fn all_requested(self) -> AckRun
        decreases self.acks.ready.len(),
    {
        if self.acks.ready.len() == 0 {
            self
        } else {
            self.after(Step::Requested).all_requested()
        }
    }

    /// The run after the first PKID of the queue asked again, as long as it was waiting.
    pub open spec fn all_asked(self) -> AckRun
        decreases self.acks.queue.len(),
    {
        if self.acks.queue.len() == 0 || !self.acks.pending.contains(self.acks.queue[0]) {
            self
        } else {
            self.after(Step::AskedAgain(self.acks.queue[0])).all_asked()
        }
    }
}

/// Requesting all acks leaves no publish ready.
proof fn lemma_all_requested(run: AckRun)
    requires
        run.valid(),
        run.acks.awaiting.len() == 0,
    ensures
        run.all_requested().valid(),
        run.all_requested().acks.awaiting.len() == 0,
        run.all_requested().acks.ready.len() == 0,
        run.all_requested().dispatches == run.dispatches,
    decreases run.acks.ready.len(),
{
    if run.acks.ready.len() > 0 {
        lemma_request_valid(run);
        lemma_all_requested(run.after(Step::Requested));
    }
}

/// Where no publish is held by receivers or ready, asking again in the order of the queue empties it.
proof fn lemma_all_asked(run: AckRun)
    requires
        run.valid(),
        run.acks.awaiting.len() == 0,
        run.acks.ready.len() == 0,
    ensures
        run.all_asked().valid(),
        run.all_asked().acks.queue.len() == 0,
        run.all_asked().dispatches == run.dispatches,
    decreases run.acks.queue.len(),
{
    if run.acks.queue.len() > 0 {
        let pkid = run.acks.queue[0];
        assert(run.acks.queue.contains(pkid));
        lemma_ask_valid(run, pkid);
        lemma_all_asked(run.after(Step::AskedAgain(pkid)));
    }
}

/// Once all tokens were acked or dropped, in whatever order, every publish is acked: it takes no more
/// than to request the acks of those that are ready, and to let those that wait ask again. Then there
/// is one ack for each publish that was dispatched, in the order of the dispatches.
pub proof fn law_all_publishes_acked_once_released(steps: Seq<Step>)
    requires
        forall|i: int|
            0 <= i < AckRun::of(steps).dispatches.len() ==> (
            #[trigger] AckRun::of(steps).dispatches[i]).released == AckRun::of(
                steps,
            ).dispatches[i].tokens,
    ensures
        AckRun::of(steps).all_requested().all_asked().acks.queue.len() == 0,
        AckRun::of(steps).all_requested().all_asked().acked == AckRun::of(
            steps,
        ).dispatches.map_values(|d: Dispatch| d.publish.pkid),
{
    let run = AckRun::of(steps);
    lemma_empty_valid();
    lemma_steps_valid(AckRun::empty(), steps);
    if run.acks.awaiting.len() > 0 {
        let pkid = run.acks.awaiting[0].0.pkid;
        assert(run.acks.is_awaiting(pkid));
        assert(run.acks.queue.contains(pkid));
        let i = run.index_of(pkid);
        assert(run.is_tracked(i));
        assert(run.dispatches[i].released == run.dispatches[i].tokens);
        assert(false);
    }
    lemma_all_requested(run);
    lemma_all_asked(run.all_requested());
    let end = run.all_requested().all_asked();
    assert forall|i: int| 0 <= i < end.acked.len() implies #[trigger] end.acked[i]
        == run.dispatches[i].publish.pkid by {}
    assert(end.acked =~= run.dispatches.map_values(|d: Dispatch| d.publish.pkid));
}

/// The publish that is handed out when its ack is to be sent at once is the first of those dispatched
/// that were not acked yet.
pub proof fn law_acked_publish_is_the_dispatched_one(steps: Seq<Step>)
    requires
        AckRun::of(steps).next_is_acked(),
    ensures
        AckRun::of(steps).acked.len() < AckRun::of(steps).dispatches.len(),
        AckRun::of(steps).acks.ready[0] == AckRun::of(steps).dispatches[AckRun::of(
            steps,
        ).acked.len() as int].publish,
{
    let run = AckRun::of(steps);
    lemma_empty_valid();
    lemma_steps_valid(AckRun::empty(), steps);
    lemma_index_of(run, run.acked.len() as int);
}

} // verus!
