//! Which session a per-application volume or mute change reaches.
//!
//! The caller walks the system's session list in order: it asks the search
//! for the next position, reads that session's process id and reports it.
//! The change is applied to the first session of the target process, and to
//! no other; when no session belongs to the process nothing is changed.

use vstd::prelude::*;

verus! {

/// A walk over the session list looking for the sessions of one process.
pub struct SessionSearch {
    target: u32,
    count: i32,
    next: i32,
    found: bool,
    seen: Ghost<Seq<u32>>,
}

impl SessionSearch {
    /// The process id that is looked for.
    pub closed spec fn target(self) -> u32 {
        self.target
    }

    /// The number of sessions in the list.
    pub closed spec fn count(self) -> i32 {
        self.count
    }

    /// The process ids reported so far, in list order.
    pub closed spec fn observed(self) -> Seq<u32> {
        self.seen@
    }

    /// Whether a session of the target process has been reached.
    pub closed spec fn found(self) -> bool {
        self.found
    }

    /// The position the search asks about next: none once a session of the
    /// target has been reached or the list is exhausted.
    pub open spec fn pending(self) -> Option<i32> {
        if !self.found() && self.observed().len() < self.count() {
            Some(self.observed().len() as i32)
        } else {
            None
        }
    }

    #[verifier::type_invariant]
    spec fn consistent(self) -> bool {
        &&& 0 <= self.next
        &&& self.next == self.seen@.len()
        &&& self.next <= self.count || self.next == 0
        &&& self.found ==> self.seen@.len() > 0 && self.seen@.last() == self.target
        &&& forall|j: int|
            0 <= j < self.seen@.len() && !(self.found && j == self.seen@.len() - 1)
                ==> #[trigger] self.seen@[j] != self.target
    }

    /// Starts a search for the sessions of process `target` in a list of `count` sessions.
    pub fn new(target: u32, count: i32) -> (search: Self)
        ensures
            search.target() == target,
            search.count() == count,
            search.observed() == Seq::<u32>::empty(),
            !search.found(),
    {
        SessionSearch { target, count, next: 0, found: false, seen: Ghost(Seq::empty()) }
    }

    /// The position of the next session to inspect, or `None` when a matching
    /// session has been reached or the list is exhausted.
    pub fn next_index(&self) -> (position: Option<i32>)
        ensures
            position == self.pending(),
    {
        proof {
            use_type_invariant(self);
        }
        if !self.found && self.next < self.count {
            Some(self.next)
        } else {
            None
        }
    }

    /// Reports the process id of the session at the position `next_index`
    /// gave; the answer says whether the change is to be applied to it.
    /// A session is only chosen when no earlier one belonged to the target.
    pub fn observe(&mut self, pid: u32) -> (apply: bool)
        requires
            !old(self).found(),
            old(self).observed().len() < old(self).count(),
        ensures
            apply == (pid == old(self).target()),
            final(self).found() == apply,
            final(self).observed() == old(self).observed().push(pid),
            final(self).target() == old(self).target(),
            final(self).count() == old(self).count(),
            apply ==> forall|j: int|
                0 <= j < old(self).observed().len() ==> #[trigger] old(self).observed()[j]
                    != old(self).target(),
    {
        proof {
            use_type_invariant(&*self);
        }
        let ghost before = self.seen@;
        let apply = pid == self.target;
        let next: i32 = self.next + 1;
        let ghost seen = before.push(pid);
        assert forall|j: int|
            0 <= j < seen.len() && !(apply && j == seen.len() - 1) implies #[trigger] seen[j]
            != self.target by {
            if j < before.len() {
                assert(seen[j] == before[j]);
            }
        }
        *self = SessionSearch {
            target: self.target,
            count: self.count,
            next,
            found: apply,
            seen: Ghost(seen),
        };
        apply
    }
}

/// A search chooses at most one session: once `observe` has chosen one, no
/// position is pending and `observe` may not be called again, so no other
/// session receives the change.
pub proof fn lemma_search_chooses_at_most_once(search: SessionSearch)
    requires
        search.found(),
    ensures
        search.pending() is None,
{
}

} // verus!
