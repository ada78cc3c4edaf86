//! Acknowledgement of received publishes in the order in which they were received.

use std::collections::{HashSet, VecDeque};

use vstd::prelude::*;

use crate::control_packet::Publish;
use crate::error::{AckError, AckErrorKind};

verus! {

broadcast use vstd::std_specs::hash::group_hash_axioms;

/// Error related to PKID
#[derive(Clone, Copy, Debug, PartialEq, Eq, Structural)]
pub enum PkidError {
    /// Pkid already in queue
    PkidDuplicate,
    /// Pkid 0 not allowed
    PkidZero,
}

impl PkidError {
    /// The message that describes the error.
    pub open spec fn message(self) -> Seq<char> {
        match self {
            PkidError::PkidDuplicate => "Pkid already in queue"@,
            PkidError::PkidZero => "Pkid 0 not allowed"@,
        }
    }

    /// The message that describes the error.
    pub fn to_string(&self) -> (r: String)
        ensures
            r@ == self.message(),
    {
        match self {
            PkidError::PkidDuplicate => "Pkid already in queue".to_string(),
            PkidError::PkidZero => "Pkid 0 not allowed".to_string(),
        }
    }
}

/// Queue of PKIDs in the order they should be acked.
pub struct PkidAckQueue {
    /// The queue of PKIDs in ack order
    queue: VecDeque<u16>,
    /// The set of PKIDs that are currently in the queue
    tracked_pkids: HashSet<u16>,
}

impl View for PkidAckQueue {
    type V = Seq<u16>;

    closed spec fn view(&self) -> Seq<u16> {
        self.queue@
    }
}

impl Default for PkidAckQueue {
    fn default() -> (r: Self)
        ensures
            r.wf(),
            r@ == Seq::<u16>::empty(),
    {
        let r = PkidAckQueue { queue: VecDeque::new(), tracked_pkids: HashSet::new() };
        assert(r.tracked_pkids@ =~= r.queue@.to_set());
        r
    }
}

impl PkidAckQueue {
    /// The tracked PKIDs are those in the queue, none of them is there twice, and none is zero.
    pub closed spec fn wf(self) -> bool {
        &&& self.tracked_pkids@ == self.queue@.to_set()
        &&& self.queue@.no_duplicates()
        &&& !self.queue@.contains(0)
    }

    /// Why a PKID cannot join a queue, if it cannot.
    pub open spec fn refusal(queue: Seq<u16>, pkid: u16) -> Option<PkidError> {
        if pkid == 0 {
            Some(PkidError::PkidZero)
        } else if queue.contains(pkid) {
            Some(PkidError::PkidDuplicate)
        } else {
            None
        }
    }

    /// Check that a PKID can join the queue.
    pub fn check_insert(&self, pkid: u16) -> (r: Result<(), PkidError>)
        requires
            self.wf(),
        ensures
            match Self::refusal(self@, pkid) {
                Some(e) => r == Err::<(), PkidError>(e),
                None => r is Ok,
            },
    {
        if pkid == 0 {
            return Err(PkidError::PkidZero);
        }
        if self.tracked_pkids.contains(&pkid) {
            return Err(PkidError::PkidDuplicate);
        }
        Ok(())
    }

    /// Insert a PKID into the back of the queue.
    ///
    /// Returns [`PkidError`] if the PKID is already in the queue
    pub fn insert(&mut self, pkid: u16) -> (r: Result<(), PkidError>)
        requires
            old(self).wf(),
        ensures
            final(self).wf(),
            match Self::refusal(old(self)@, pkid) {
                Some(e) => r == Err::<(), PkidError>(e) && final(self)@ == old(self)@,
                None => r is Ok && final(self)@ == old(self)@.push(pkid),
            },
    {
        if let Err(e) = self.check_insert(pkid) {
            return Err(e);
        }
        self.tracked_pkids.insert(pkid);
        self.queue.push_back(pkid);
        proof {
            let before = old(self).queue@;
            assert forall|x: u16| before.push(pkid).contains(x) == (before.contains(x) || x == pkid)
                by {
                if before.contains(x) {
                    let i = before.index_of(x);
                    assert(before.push(pkid)[i] == x);
                }
                assert(before.push(pkid)[before.len() as int] == pkid);
            }
            assert(self.tracked_pkids@ =~= self.queue@.to_set());
        }
        Ok(())
    }

    /// Return the next PKID in the queue, if there is one
    pub fn check_next_ack_pkid(&self) -> (r: Option<&u16>)
        ensures
            self@.len() == 0 ==> r is None,
            self@.len() > 0 ==> r == Some(&self@[0]),
    {
        if self.queue.len() == 0 {
            None
        } else {
            Some(&self.queue[0])
        }
    }

    /// Return the next PKID in the queue, if there is one, removing it from the queue
    pub fn pop_next_ack_pkid(&mut self) -> (r: Option<u16>)
        requires
            old(self).wf(),
        ensures
            final(self).wf(),
            old(self)@.len() == 0 ==> r is None && final(self)@ == old(self)@,
            old(self)@.len() > 0 ==> r == Some(old(self)@[0]) && final(self)@
                == old(self)@.drop_first(),
    {
        match self.queue.pop_front() {
            Some(pkid) => {
                self.tracked_pkids.remove(&pkid);
                proof {
                    let before = old(self).queue@;
                    let after = before.drop_first();
                    assert forall|x: u16| after.contains(x) == (before.contains(x) && x != pkid) by {
                        if before.contains(x) && x != pkid {
                            let i = before.index_of(x);
                            assert(after[i - 1] == x);
                        }
                        if after.contains(x) {
                            let i = after.index_of(x);
                            assert(before[i + 1] == x);
                        }
                    }
                    assert(self.queue@ =~= after);
                    assert(self.tracked_pkids@ =~= self.queue@.to_set());
                }
                Some(pkid)
            },
            None => None,
        }
    }

    /// Returns whether the PKID is already in the queue
    pub fn contains(&self, pkid: u16) -> (r: bool)
        requires
            self.wf(),
        ensures
            r == self@.contains(pkid),
    {
        self.tracked_pkids.contains(&pkid)
    }

    /// No PKID is in the queue twice, and zero is never in it.
    pub proof fn law_pkids_distinct_and_not_zero(self)
        requires
            self.wf(),
        ensures
            self@.no_duplicates(),
            !self@.contains(0),
    {
    }

    /// Number of PKIDs in the queue
    pub fn len(&self) -> (r: usize)
        ensures
            r == self@.len(),
    {
        self.queue.len()
    }
}

/// What to do about a request to ack a publish.
#[derive(Clone, Copy, Debug, PartialEq, Eq, Structural)]
pub enum AckTurn {
    /// The publish needs no ack.
    NotNeeded,
    /// It is the turn of the publish: send its ack.
    Now,
    /// Publishes that were received earlier have not been acked yet: ask again after the next attempt
    /// to send an ack.
    Wait,
}

/// The PKIDs that are yet to be acked, in the order in which they were received, and those of them
/// for which an ack was requested that has to wait for its turn.
#[verifier::ext_equal]
pub struct AckState {
    pub queue: Seq<u16>,
    pub pending: Set<u16>,
}

impl AckState {
    /// Whether the PKID is the next to be acked.
    pub open spec fn is_turn(self, pkid: u16) -> bool {
        self.queue.len() > 0 && self.queue[0] == pkid
    }

    /// The state after a publish with this PKID was received.
    pub open spec fn received(self, pkid: u16) -> AckState {
        if PkidAckQueue::refusal(self.queue, pkid) is None {
            AckState { queue: self.queue.push(pkid), ..self }
        } else {
            self
        }
    }

    /// What a request to ack the PKID is answered.
    pub open spec fn request_answer(self, pkid: u16) -> Result<AckTurn, AckErrorKind> {
        if pkid == 0 {
            Ok(AckTurn::NotNeeded)
        } else if self.pending.contains(pkid) {
            Err(AckErrorKind::AlreadyAcked)
        } else if self.is_turn(pkid) {
            Ok(AckTurn::Now)
        } else {
            Ok(AckTurn::Wait)
        }
    }

    /// The state after a request to ack the PKID.
    pub open spec fn requested(self, pkid: u16) -> AckState {
        match self.request_answer(pkid) {
            Ok(AckTurn::Now) => AckState { queue: self.queue.drop_first(), ..self },
            Ok(AckTurn::Wait) => AckState { pending: self.pending.insert(pkid), ..self },
            _ => self,
        }
    }

    /// The state after a waiting PKID asked whether its turn has come.
    pub open spec fn asked_again(self, pkid: u16) -> AckState {
        if self.is_turn(pkid) {
            AckState { queue: self.queue.drop_first(), pending: self.pending.remove(pkid) }
        } else {
            self
        }
    }
}

/// Decides when publishes are acked, so that they are acked in the order that they were received.
pub struct OrderedAcker {
    /// PKIDs that are currently awaiting their turn for acking
    pending_acks: HashSet<u16>,
}

impl View for OrderedAcker {
    type V = Set<u16>;

    closed spec fn view(&self) -> Set<u16> {
        self.pending_acks@
    }
}

/// The state that an acker and its queue are in.
pub open spec fn ack_state(acker: OrderedAcker, queue: PkidAckQueue) -> AckState {
    AckState { queue: queue@, pending: acker@ }
}

impl OrderedAcker {
    /// Create and return a new [`OrderedAcker`] instance that no publish is waiting on.
    pub fn new() -> (r: Self)
        ensures
            r@ == Set::<u16>::empty(),
    {
        OrderedAcker { pending_acks: HashSet::new() }
    }

    /// Request the ack of a received publish, according to the order of PKIDs in the queue.
    ///
    /// On [`AckTurn::Now`] the ack is to be sent, and the PKID has left the queue: its position is
    /// relinquished whether or not sending succeeds. On [`AckTurn::Wait`] the publish waits, and
    /// [`OrderedAcker::ask_again`] is to be called after every attempt to send an ack, be it that it
    /// succeeded or that it failed.
    ///
    /// # Errors
    /// [`AckErrorKind::AlreadyAcked`] if a request for this PKID is already waiting.
    pub fn ordered_ack(&mut self, queue: &mut PkidAckQueue, publish: &Publish) -> (r: Result<
        AckTurn,
        AckError,
    >)
        requires
            old(queue).wf(),
        ensures
            final(queue).wf(),
            ack_state(*final(self), *final(queue)) == ack_state(*old(self), *old(queue)).requested(
                publish.pkid,
            ),
            match (r, ack_state(*old(self), *old(queue)).request_answer(publish.pkid)) {
                (Ok(turn), Ok(answer)) => turn == answer,
                (Err(e), Err(kind)) => e@ == kind,
                _ => false,
            },
    {
        // No need to ack QoS0 publishes. Skip.
        if publish.pkid == 0 {
            return Ok(AckTurn::NotNeeded);
        }
        if self.pending_acks.contains(&publish.pkid) {
            return Err(AckError::new(AckErrorKind::AlreadyAcked));
        }
        self.pending_acks.insert(publish.pkid);
        if self.ask_again(queue, publish.pkid) {
            assert(self@ =~= old(self)@);
            Ok(AckTurn::Now)
        } else {
            Ok(AckTurn::Wait)
        }
    }

    /// Whether a request for the PKID is waiting.
    pub fn is_waiting(&self, pkid: u16) -> (r: bool)
        ensures
            r == self@.contains(pkid),
    {
        self.pending_acks.contains(&pkid)
    }

    /// Whether the turn of a waiting PKID has come. If so, the PKID leaves the queue, and its ack is
    /// to be sent.
    pub fn ask_again(&mut self, queue: &mut PkidAckQueue, pkid: u16) -> (r: bool)
        requires
            old(queue).wf(),
        ensures
            final(queue).wf(),
            ack_state(*final(self), *final(queue)) == ack_state(
                *old(self),
                *old(queue),
            ).asked_again(pkid),
            r == ack_state(*old(self), *old(queue)).is_turn(pkid),
    {
        let is_next = match queue.check_next_ack_pkid() {
            Some(next_ack_pkid) => *next_ack_pkid == pkid,
            None => false,
        };
        if is_next {
            queue.pop_next_ack_pkid();
            self.pending_acks.remove(&pkid);
        }
        is_next
    }
}

/// Something that happens to an [`OrderedAcker`] and its queue.
pub enum AckEvent {
    /// A publish with this PKID was received.
    Received(u16),
    /// The ack of this PKID was requested.
    Requested(u16),
    /// This PKID asked again whether its turn has come.
    AskedAgain(u16),
}

/// A run of an [`OrderedAcker`] and its queue.
pub struct AckHistory {
    pub state: AckState,
    /// The PKIDs that joined the queue, in that order.
    pub received: Seq<u16>,
    /// The PKIDs whose acks were to be sent, in that order.
    pub acked: Seq<u16>,
}

impl AckHistory {
    /// The history after one more event.
    pub open spec fn then_event(self, event: AckEvent) -> AckHistory {
        match event {
            AckEvent::Received(pkid) => AckHistory {
                state: self.state.received(pkid),
                received: if PkidAckQueue::refusal(self.state.queue, pkid) is None {
                    self.received.push(pkid)
                } else {
                    self.received
                },
                ..self
            },
            AckEvent::Requested(pkid) => AckHistory {
                state: self.state.requested(pkid),
                acked: if self.state.request_answer(pkid) == Ok::<AckTurn, AckErrorKind>(
                    AckTurn::Now,
                ) {
                    self.acked.push(pkid)
                } else {
                    self.acked
                },
                ..self
            },
            AckEvent::AskedAgain(pkid) => AckHistory {
                state: self.state.asked_again(pkid),
                acked: if self.state.is_turn(pkid) {
                    self.acked.push(pkid)
                } else {
                    self.acked
                },
                ..self
            },
        }
    }

    /// The history of a run of events, from a new acker and an empty queue.
    pub open spec fn of(events: Seq<AckEvent>) -> AckHistory
        decreases events.len(),
    {
        if events.len() == 0 {
            AckHistory {
                state: AckState { queue: Seq::empty(), pending: Set::empty() },
                received: Seq::empty(),
                acked: Seq::empty(),
            }
        } else {
            Self::of(events.drop_last()).then_event(events.last())
        }
    }
}

/// Publishes are acked in the order in which they were received, whatever the order in which their
/// acks are requested: at any time, the PKIDs acked so far followed by those still in the queue are
/// the PKIDs received.
pub proof fn law_acks_in_order_received(events: Seq<AckEvent>)
    ensures
        AckHistory::of(events).acked + AckHistory::of(events).state.queue == AckHistory::of(
            events,
        ).received,
    decreases events.len(),
{
    if events.len() > 0 {
        law_acks_in_order_received(events.drop_last());
        let before = AckHistory::of(events.drop_last());
        let after = before.then_event(events.last());
        assert(after.acked + after.state.queue =~= after.received);
    } else {
        assert(Seq::<u16>::empty() + Seq::<u16>::empty() =~= Seq::<u16>::empty());
    }
}

/// The state after the PKIDs asked again one after the other.
pub open spec fn all_asked_again(state: AckState, pkids: Seq<u16>) -> AckState
    decreases pkids.len(),
{
    if pkids.len() == 0 {
        state
    } else {
        all_asked_again(state.asked_again(pkids[0]), pkids.drop_first())
    }
}

/// A PKID whose ack has to wait is acked once every PKID before it was: where the first `n` PKIDs
/// of the queue ask again in the order of the queue, all of them leave it.
pub proof fn law_waiting_acks_are_released(state: AckState, n: nat)
    requires
        n <= state.queue.len(),
    ensures
        all_asked_again(state, state.queue.take(n as int)).queue == state.queue.skip(n as int),
    decreases n,
{
    let pkids = state.queue.take(n as int);
    if n > 0 {
        let next = state.asked_again(pkids[0]);
        assert(pkids.drop_first() =~= next.queue.take(n - 1));
        law_waiting_acks_are_released(next, (n - 1) as nat);
        assert(next.queue.skip(n - 1) =~= state.queue.skip(n as int));
    } else {
        assert(state.queue.skip(0) =~= state.queue);
    }
}

/// While a request to ack a PKID is waiting, any other request for the same PKID is refused and
/// changes nothing.
pub proof fn law_one_waiting_request_per_pkid(state: AckState, pkid: u16)
    requires
        pkid != 0,
        state.request_answer(pkid) == Ok::<AckTurn, AckErrorKind>(AckTurn::Wait),
    ensures
        state.requested(pkid).request_answer(pkid) == Err::<AckTurn, AckErrorKind>(
            AckErrorKind::AlreadyAcked,
        ),
        state.requested(pkid).requested(pkid) == state.requested(pkid),
{
}

/// A PKID can join the queue exactly if it is not zero and not in the queue; and the error tells which
/// of the two it is.
pub proof fn law_which_pkids_can_join(queue: Seq<u16>, pkid: u16)
    ensures
        PkidAckQueue::refusal(queue, pkid) is None <==> pkid != 0 && !queue.contains(pkid),
        PkidAckQueue::refusal(queue, pkid) == Some(PkidError::PkidZero) <==> pkid == 0,
        PkidAckQueue::refusal(queue, pkid) == Some(PkidError::PkidDuplicate) <==> pkid != 0
            && queue.contains(pkid),
{
}

/// A PKID that is received goes to the back of the queue, and no request is touched.
pub proof fn law_received_pkid_goes_to_the_back(state: AckState, pkid: u16)
    requires
        pkid != 0,
        !state.queue.contains(pkid),
    ensures
        state.received(pkid).queue == state.queue.push(pkid),
        state.received(pkid).pending == state.pending,
{
}

/// The ack of the PKID that was received first is sent as soon as it is requested, and the PKID leaves
/// the queue; the ack of any other PKID waits, and the queue stays as it is.
pub proof fn law_first_is_acked_at_once_and_others_wait(state: AckState, pkid: u16)
    requires
        pkid != 0,
        !state.pending.contains(pkid),
    ensures
        state.queue.len() > 0 && state.queue[0] == pkid ==> {
            &&& state.request_answer(pkid) == Ok::<AckTurn, AckErrorKind>(AckTurn::Now)
            &&& state.requested(pkid).queue == state.queue.drop_first()
            &&& state.requested(pkid).pending == state.pending
        },
        !(state.queue.len() > 0 && state.queue[0] == pkid) ==> {
            &&& state.request_answer(pkid) == Ok::<AckTurn, AckErrorKind>(AckTurn::Wait)
            &&& state.requested(pkid).queue == state.queue
            &&& state.requested(pkid).pending == state.pending.insert(pkid)
        },
{
}

/// Publishes without a PKID need no ack, and a request for one changes nothing.
pub proof fn law_no_ack_without_pkid(state: AckState)
    ensures
        state.request_answer(0) == Ok::<AckTurn, AckErrorKind>(AckTurn::NotNeeded),
        state.requested(0) == state,
{
}

/// A PKID that waits is acked when it asks and is the first of the queue, and otherwise goes on
/// waiting.
pub proof fn law_asking_again(state: AckState, pkid: u16)
    ensures
        state.queue.len() > 0 && state.queue[0] == pkid ==> {
            &&& state.is_turn(pkid)
            &&& state.asked_again(pkid).queue == state.queue.drop_first()
            &&& state.asked_again(pkid).pending == state.pending.remove(pkid)
        },
        !(state.queue.len() > 0 && state.queue[0] == pkid) ==> {
            &&& !state.is_turn(pkid)
            &&& state.asked_again(pkid) == state
        },
{
}

} // verus!
