//! Acknowledgement of a publish on behalf of all the receivers that it was dispatched to.

use vstd::prelude::*;

verus! {

/// The ack of one publish, that is to take place once it has commenced and all of its members are
/// done, be it that they acked or that they were dropped.
pub struct PlenaryAck {
    pkid: u16,
    outstanding: usize,
    commenced: bool,
}

/// What a [`PlenaryAck`] stands for.
pub struct PlenaryAckView {
    /// The PKID of the publish.
    pub pkid: u16,
    /// The members that are not done yet.
    pub outstanding: nat,
    /// Whether no more members will be created.
    pub commenced: bool,
}

impl PlenaryAckView {
    /// Whether the ack is to take place.
    pub open spec fn is_due(self) -> bool {
        self.commenced && self.outstanding == 0
    }

    /// The ack after one more member is done.
    pub open spec fn member_done(self) -> PlenaryAckView {
        PlenaryAckView { outstanding: (self.outstanding - 1) as nat, ..self }
    }

    /// The ack after `n` more members are done.
    pub open spec fn members_done(self, n: nat) -> PlenaryAckView
        decreases n,
    {
        if n == 0 {
            self
        } else {
            self.members_done((n - 1) as nat).member_done()
        }
    }
}

impl View for PlenaryAck {
    type V = PlenaryAckView;

    closed spec fn view(&self) -> PlenaryAckView {
        PlenaryAckView {
            pkid: self.pkid,
            outstanding: self.outstanding as nat,
            commenced: self.commenced,
        }
    }
}

/// One part of a [`PlenaryAck`].
#[derive(Debug)]
pub struct PlenaryAckMember {
    pkid: u16,
}

impl View for PlenaryAckMember {
    type V = u16;

    /// The PKID of the publish that is to be acked.
    closed spec fn view(&self) -> u16 {
        self.pkid
    }
}

impl PlenaryAckMember {
    /// The PKID of the publish that is to be acked.
    pub fn pkid(&self) -> (r: u16)
        ensures
            r == self@,
    {
        self.pkid
    }
}

impl PlenaryAck {
    /// An ack without members that has not commenced.
    pub fn new(pkid: u16) -> (r: Self)
        ensures
            r@ == (PlenaryAckView { pkid, outstanding: 0, commenced: false }),
    {
        PlenaryAck { pkid, outstanding: 0, commenced: false }
    }

    /// Create one more member.
    pub fn create_member(&mut self) -> (r: PlenaryAckMember)
        requires
            old(self)@.outstanding < usize::MAX,
        ensures
            r@ == old(self)@.pkid,
            final(self)@ == (PlenaryAckView {
                outstanding: old(self)@.outstanding + 1,
                ..old(self)@
            }),
    {
        self.outstanding = self.outstanding + 1;
        PlenaryAckMember { pkid: self.pkid }
    }

    /// Commence the ack: all members have been created. Returns whether the ack is to take place
    /// at once, which it is if there are no members left to wait for.
    pub fn commence(&mut self) -> (r: bool)
        ensures
            r == final(self)@.is_due(),
            final(self)@ == (PlenaryAckView { commenced: true, ..old(self)@ }),
    {
        self.commenced = true;
        self.outstanding == 0
    }

    /// One of the members is done. Returns whether the ack is to take place now.
    pub fn member_done(&mut self) -> (r: bool)
        requires
            old(self)@.outstanding > 0,
        ensures
            r == final(self)@.is_due(),
            final(self)@ == old(self)@.member_done(),
    {
        self.outstanding = self.outstanding - 1;
        self.commenced && self.outstanding == 0
    }

    /// The PKID of the publish that is to be acked.
    pub fn pkid(&self) -> (r: u16)
        ensures
            r == self@.pkid,
    {
        self.pkid
    }
}

/// An ack that has commenced takes place when the last of its members is done, and not before.
pub proof fn law_due_when_all_members_are_done(ack: PlenaryAckView, n: nat)
    requires
        ack.commenced,
        n <= ack.outstanding,
    ensures
        ack.members_done(n).is_due() <==> n == ack.outstanding,
        ack.members_done(n).outstanding == ack.outstanding - n,
        ack.members_done(n).commenced,
    decreases n,
{
    if n > 0 {
        law_due_when_all_members_are_done(ack, (n - 1) as nat);
    }
}

/// An ack that has not commenced is not due, whatever its members do.
pub proof fn law_not_due_before_commencement(ack: PlenaryAckView, n: nat)
    requires
        !ack.commenced,
    ensures
        !ack.members_done(n).is_due(),
    decreases n,
{
    lemma_commenced_unchanged(ack, n);
}

proof fn lemma_commenced_unchanged(ack: PlenaryAckView, n: nat)
    ensures
        ack.members_done(n).commenced == ack.commenced,
    decreases n,
{
    if n > 0 {
        lemma_commenced_unchanged(ack, (n - 1) as nat);
    }
}

} // verus!
