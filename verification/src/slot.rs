//! Single-occupancy handoff slot.
//!
//! The slot mediates the transfer of one background task's handle from the
//! trigger side to the polling side. Holding at most one handle at a time is
//! what enforces "at most one concurrent fetch": a trigger that finds the
//! slot occupied starts nothing. The caller wraps the slot in its own mutual
//! exclusion; every method here is a single atomic step under that lock.

use vstd::prelude::*;

verus! {

/// Holder for at most one handle of an in-flight background task.
pub struct HandoffSlot<H> {
    task: Option<H>,
}

impl<H> HandoffSlot<H> {
    /// The handle currently stored, if any.
    pub closed spec fn stored(&self) -> Option<H> {
        self.task
    }

    /// How many task handles the slot holds.
    pub open spec fn occupancy(&self) -> nat {
        if self.stored() is Some {
            1nat
        } else {
            0nat
        }
    }

    /// Relation between the slot's contents before a poll, what the poll
    /// took, and the contents after: a handle is taken only if present, and
    /// taking it empties the slot; when nothing is taken the slot is as it
    /// was.
    pub open spec fn poll_transition(pre: Option<H>, taken: Option<H>, post: Option<H>) -> bool {
        &&& taken is Some ==> taken == pre && post is None
        &&& taken is None ==> post == pre
        &&& pre is None ==> taken is None
    }

    pub fn new() -> (s: Self)
        ensures
            s.stored() is None,
    {
        HandoffSlot { task: None }
    }

    /// Whether a task handle is currently stored.
    pub fn is_occupied(&self) -> (r: bool)
        ensures
            r == (self.stored() is Some),
    {
        self.task.is_some()
    }

    /// If the slot is empty, start new work via `spawn` and store its
    /// handle; if it is occupied, start nothing and leave the stored handle
    /// untouched. Returns whether work was started.
    pub fn try_begin<F: FnOnce() -> H>(&mut self, spawn: F) -> (started: bool)
        requires
            call_requires(spawn, ()),
        ensures
            started == (old(self).stored() is None),
            !started ==> *final(self) == *old(self),
            started ==> (final(self).stored() matches Some(h) && call_ensures(spawn, (), h)),
    {
        if self.task.is_some() {
            false
        } else {
            self.task = Some(spawn());
            true
        }
    }

    /// If a handle is stored and `is_finished` reports it complete, remove
    /// and return it; otherwise return nothing and leave the slot exactly as
    /// it was. An empty slot always yields nothing.
    pub fn poll_take_if_finished<F: Fn(&H) -> bool>(&mut self, is_finished: F) -> (taken: Option<
        H,
    >)
        requires
            forall|h: &H| call_requires(is_finished, (h,)),
        ensures
            Self::poll_transition(old(self).stored(), taken, final(self).stored()),
            taken matches Some(h) ==> call_ensures(is_finished, (&h,), true),
            taken is None ==> (old(self).stored() matches Some(h) ==> call_ensures(
                is_finished,
                (&h,),
                false,
            ) && *final(self) == *old(self)),
    {
        match self.task.take() {
            None => None,
            Some(h) => {
                if is_finished(&h) {
                    Some(h)
                } else {
                    self.task = Some(h);
                    None
                }
            },
        }
    }
}

/// Law: the slot never holds more than one task handle at any instant.
pub proof fn lemma_occupancy_at_most_one<H>(s: &HandoffSlot<H>)
    ensures
        s.occupancy() <= 1,
{
}

/// Law: a finished handle is handed out exactly once. If one poll takes a
/// handle, the slot is left empty, and a second poll before any new work is
/// begun takes nothing and changes nothing.
pub proof fn lemma_poll_takes_at_most_once<H>(
    pre: Option<H>,
    first: Option<H>,
    mid: Option<H>,
    second: Option<H>,
    post: Option<H>,
)
    requires
        HandoffSlot::<H>::poll_transition(pre, first, mid),
        HandoffSlot::<H>::poll_transition(mid, second, post),
        first is Some,
    ensures
        mid is None,
        second is None,
        post is None,
{
}

} // verus!
