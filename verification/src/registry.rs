//! The session registry: the process-wide set of `(user, session id)`
//! entries that keeps every user in at most one live session.
//!
//! The registry is the only state shared across concurrent session
//! supervisors; the surrounding process is expected to guard one
//! `Registry` value with a mutual-exclusion lock and to call each method
//! inside one critical section, so that the check-then-insert of
//! [`Registry::try_admit`] is indivisible.

use vstd::prelude::*;

verus! {

/// Why an admission request was refused.
#[derive(Clone, Copy, Debug, PartialEq, Eq, Structural)]
pub enum AdmitError {
    /// One of the two would-be participants already owns a registry entry.
    AlreadyOccupied,
}

/// The set of live `(user, session id)` entries. An active session owns
/// two entries, one per participant, sharing the same session id.
#[derive(Debug)]
pub struct Registry {
    pub entries: Vec<(u64, u64)>,
}

impl Registry {
    /// The entry `(user, session_id)` is present.
    pub open spec fn has_entry(self, user: u64, session_id: u64) -> bool {
        exists|i: int|
            0 <= i < self.entries@.len() && #[trigger] self.entries@[i] == (user, session_id)
    }

    /// `user` owns some entry, whatever its session id.
    pub open spec fn occupies(self, user: u64) -> bool {
        exists|i: int| 0 <= i < self.entries@.len() && (#[trigger] self.entries@[i]).0 == user
    }

    /// Well-formedness: no user owns two entries. Every method keeps this.
    pub open spec fn wf(self) -> bool {
        forall|i: int, j: int|
            0 <= i < self.entries@.len() && 0 <= j < self.entries@.len() && i != j
                ==> (#[trigger] self.entries@[i]).0 != (#[trigger] self.entries@[j]).0
    }

    /// An empty registry: nobody occupied.
    pub fn new() -> (r: Registry)
        ensures
            r.wf(),
            r.entries@.len() == 0,
            forall|u: u64| !r.occupies(u),
    {
        Registry { entries: Vec::new() }
    }

    /// Whether `user` currently owns an entry.
    pub fn is_occupied(&self, user: u64) -> (b: bool)
        ensures
            b == self.occupies(user),
    {
        let mut i: usize = 0;
        while i < self.entries.len()
            invariant
                i <= self.entries@.len(),
                forall|j: int| 0 <= j < i ==> (#[trigger] self.entries@[j]).0 != user,
            decreases self.entries@.len() - i,
        {
            if self.entries[i].0 == user {
                return true;
            }
            i += 1;
        }
        false
    }

    /// Atomically admits a pair of participants: if neither owns an entry,
    /// both `(initiator, session_id)` and `(responder, session_id)` are
    /// inserted; otherwise the registry is left untouched and the request
    /// is refused. Run under the registry's lock, the occupancy check and
    /// the insertions form one critical section, so two overlapping
    /// invitations can never both be admitted.
    pub fn try_admit(&mut self, initiator: u64, responder: u64, session_id: u64) -> (r: Result<
        (),
        AdmitError,
    >)
        requires
            old(self).wf(),
            initiator != responder,
        ensures
            final(self).wf(),
            r is Ok <==> !old(self).occupies(initiator) && !old(self).occupies(responder),
            r is Err ==> r == Err::<(), AdmitError>(AdmitError::AlreadyOccupied) && *final(self) == *old(self),
            r is Ok ==> final(self).entries@ == old(self).entries@.push((initiator, session_id)).push(
                (responder, session_id),
            ),
            r is Ok ==> final(self).has_entry(initiator, session_id) && final(self).has_entry(
                responder,
                session_id,
            ),
            forall|u: u64|
                final(self).occupies(u) <==> old(self).occupies(u) || (r is Ok && (u == initiator || u
                    == responder)),
    {
        if self.is_occupied(initiator) || self.is_occupied(responder) {
            return Err(AdmitError::AlreadyOccupied);
        }
        let ghost pre = self.entries@;
        self.entries.push((initiator, session_id));
        self.entries.push((responder, session_id));
        proof {
            assert forall|u: u64|
                self.occupies(u) <==> (exists|i: int|
                    0 <= i < pre.len() && (#[trigger] pre[i]).0 == u) || u == initiator || u
                    == responder by {
                if self.occupies(u) {
                    let i = choose|i: int|
                        0 <= i < self.entries@.len() && (#[trigger] self.entries@[i]).0 == u;
                    if i < pre.len() {
                        assert(pre[i].0 == u);
                    }
                }
                if exists|i: int| 0 <= i < pre.len() && (#[trigger] pre[i]).0 == u {
                    let i = choose|i: int| 0 <= i < pre.len() && (#[trigger] pre[i]).0 == u;
                    assert(self.entries@[i].0 == u);
                }
                if u == initiator {
                    assert(self.entries@[pre.len() as int] == (initiator, session_id));
                }
                if u == responder {
                    assert(self.entries@[pre.len() as int + 1] == (responder, session_id));
                }
            }
            assert(self.entries@[pre.len() as int] == (initiator, session_id));
            assert(self.entries@[pre.len() as int + 1] == (responder, session_id));
        }
        Ok(())
    }

    /// Index of the entry `(user, session_id)`, if present.
    fn find_entry(&self, user: u64, session_id: u64) -> (r: Option<usize>)
        ensures
            match r {
                Some(i) => i < self.entries@.len() && self.entries@[i as int] == (
                    user,
                    session_id,
                ),
                None => !self.has_entry(user, session_id),
            },
    {
        let mut i: usize = 0;
        while i < self.entries.len()
            invariant
                i <= self.entries@.len(),
                forall|j: int| 0 <= j < i ==> #[trigger] self.entries@[j] != (user, session_id),
            decreases self.entries@.len() - i,
        {
            if self.entries[i].0 == user && self.entries[i].1 == session_id {
                return Some(i);
            }
            i += 1;
        }
        None
    }

    /// Idempotent removal of the single entry `(user, session_id)`:
    /// removing an absent entry is a no-op, not an error. Every other
    /// entry is kept.
    pub fn release(&mut self, user: u64, session_id: u64)
        requires
            old(self).wf(),
        ensures
            final(self).wf(),
            !final(self).has_entry(user, session_id),
            forall|u2: u64, s2: u64|
                !(u2 == user && s2 == session_id) ==> (final(self).has_entry(u2, s2) <==> old(self).has_entry(u2, s2)),
            forall|u2: u64|
                u2 != user ==> (final(self).occupies(u2) <==> old(self).occupies(u2)),
            final(self).occupies(user) <==> old(self).occupies(user) && !old(self).has_entry(
                user,
                session_id,
            ),
            !old(self).has_entry(user, session_id) ==> *final(self) == *old(self),
            old(self).has_entry(user, session_id) ==> final(self).entries@.len() == old(
                self,
            ).entries@.len() - 1,
    {
        match self.find_entry(user, session_id) {
            Some(i) => {
                let ghost pre = self.entries@;
                let ghost k = i as int;
                self.entries.remove(i);
                proof {
                    pre.remove_ensures(k);
                    assert forall|u2: u64, s2: u64| self.has_entry(u2, s2) implies (exists|j: int|
                        0 <= j < pre.len() && j != k && #[trigger] pre[j] == (u2, s2)) by {
                        let j = choose|j: int|
                            0 <= j < self.entries@.len() && #[trigger] self.entries@[j] == (
                            u2,
                            s2,
                            );
                        if j < k {
                            assert(pre[j] == (u2, s2));
                        } else {
                            assert(pre[j + 1] == (u2, s2));
                        }
                    }
                    assert forall|u2: u64, s2: u64|
                        (exists|j: int| 0 <= j < pre.len() && j != k && #[trigger] pre[j] == (u2, s2))
                        implies self.has_entry(u2, s2) by {
                        let j = choose|j: int|
                            0 <= j < pre.len() && j != k && #[trigger] pre[j] == (u2, s2);
                        if j < k {
                            assert(self.entries@[j] == (u2, s2));
                        } else {
                            assert(self.entries@[j - 1] == (u2, s2));
                        }
                    }
                    assert forall|u2: u64| self.occupies(u2) implies (exists|j: int|
                        0 <= j < pre.len() && j != k && (#[trigger] pre[j]).0 == u2) by {
                        let j = choose|j: int|
                            0 <= j < self.entries@.len() && (#[trigger] self.entries@[j]).0 == u2;
                        if j < k {
                            assert(pre[j].0 == u2);
                        } else {
                            assert(pre[j + 1].0 == u2);
                        }
                    }
                    assert forall|u2: u64|
                        (exists|j: int| 0 <= j < pre.len() && j != k && (#[trigger] pre[j]).0 == u2)
                        implies self.occupies(u2) by {
                        let j = choose|j: int|
                            0 <= j < pre.len() && j != k && (#[trigger] pre[j]).0 == u2;
                        if j < k {
                            assert(self.entries@[j].0 == u2);
                        } else {
                            assert(self.entries@[j - 1].0 == u2);
                        }
                    }
                    assert forall|a: int, b: int|
                        0 <= a < self.entries@.len() && 0 <= b < self.entries@.len() && a != b
                        implies (#[trigger] self.entries@[a]).0 != (
                        #[trigger] self.entries@[b]).0 by {
                        let a2: int = if a < k { a } else { a + 1 };
                        let b2: int = if b < k { b } else { b + 1 };
                        assert(self.entries@[a] == pre[a2]);
                        assert(self.entries@[b] == pre[b2]);
                    }
                    assert(!self.has_entry(user, session_id)) by {
                        if self.has_entry(user, session_id) {
                            let j = choose|j: int|
                                0 <= j < pre.len() && j != k && #[trigger] pre[j] == (
                                user,
                                session_id,
                                );
                            assert(pre[j].0 == pre[k].0);
                        }
                    }
                    assert(!self.occupies(user)) by {
                        if self.occupies(user) {
                            let j = choose|j: int|
                                0 <= j < pre.len() && j != k && (#[trigger] pre[j]).0 == user;
                            assert(pre[j].0 == pre[k].0);
                        }
                    }
                }
            },
            None => {},
        }
    }

    /// Removes both participants' entries of one session; used on every
    /// terminal path. Afterwards neither participant is occupied, unless
    /// the participant was occupied by an entry of a different session.
    pub fn release_session(&mut self, initiator: u64, responder: u64, session_id: u64)
        requires
            old(self).wf(),
        ensures
            final(self).wf(),
            !final(self).has_entry(initiator, session_id),
            !final(self).has_entry(responder, session_id),
            forall|u2: u64, s2: u64|
                !((u2 == initiator || u2 == responder) && s2 == session_id) ==> (final(self).has_entry(u2, s2) <==> old(self).has_entry(u2, s2)),
            forall|u2: u64|
                u2 != initiator && u2 != responder ==> (final(self).occupies(u2) <==> old(self).occupies(u2)),
            final(self).occupies(initiator) <==> old(self).occupies(initiator) && !old(self).has_entry(initiator, session_id),
            final(self).occupies(responder) <==> old(self).occupies(responder) && !old(self).has_entry(responder, session_id),
    {
        self.release(initiator, session_id);
        self.release(responder, session_id);
    }

    /// Index of some entry whose session id is `session_id`, if any.
    fn find_by_session(&self, session_id: u64) -> (r: Option<usize>)
        ensures
            match r {
                Some(i) => i < self.entries@.len() && self.entries@[i as int].1 == session_id,
                None => forall|u2: u64| !self.has_entry(u2, session_id),
            },
    {
        let mut i: usize = 0;
        while i < self.entries.len()
            invariant
                i <= self.entries@.len(),
                forall|j: int| 0 <= j < i ==> (#[trigger] self.entries@[j]).1 != session_id,
            decreases self.entries@.len() - i,
        {
            if self.entries[i].1 == session_id {
                return Some(i);
            }
            i += 1;
        }
        None
    }

    /// Removes every entry of the session `session_id`, whoever owns it;
    /// used when the hosting conversational context is destroyed
    /// out-of-band and the owning session is unknown to the caller.
    pub fn purge_by_session_id(&mut self, session_id: u64)
        requires
            old(self).wf(),
        ensures
            final(self).wf(),
            forall|u2: u64| !final(self).has_entry(u2, session_id),
            forall|u2: u64, s2: u64|
                s2 != session_id ==> (final(self).has_entry(u2, s2) <==> old(self).has_entry(
                    u2,
                    s2,
                )),
            forall|u2: u64|
                final(self).occupies(u2) <==> old(self).occupies(u2) && !old(self).has_entry(
                    u2,
                    session_id,
                ),
    {
        loop
            invariant_except_break
                self.wf(),
                forall|u2: u64, s2: u64|
                    s2 != session_id ==> (self.has_entry(u2, s2) <==> old(self).has_entry(u2, s2)),
                forall|u2: u64|
                    #[trigger] self.has_entry(u2, session_id) ==> old(self).has_entry(
                        u2,
                        session_id,
                    ),
                forall|u2: u64|
                    old(self).occupies(u2) && !old(self).has_entry(u2, session_id)
                        ==> self.occupies(u2),
                forall|u2: u64|
                    self.occupies(u2) ==> old(self).occupies(u2),
            ensures
                self.wf(),
                forall|u2: u64| !self.has_entry(u2, session_id),
                forall|u2: u64, s2: u64|
                    s2 != session_id ==> (self.has_entry(u2, s2) <==> old(self).has_entry(u2, s2)),
                forall|u2: u64|
                    old(self).occupies(u2) && !old(self).has_entry(u2, session_id)
                        ==> self.occupies(u2),
                forall|u2: u64|
                    self.occupies(u2) ==> old(self).occupies(u2),
            decreases self.entries@.len(),
        {
            match self.find_by_session(session_id) {
                Some(i) => {
                    let owner = self.entries[i].0;
                    let ghost mid = *self;
                    proof {
                        assert(mid.has_entry(owner, session_id));
                    }
                    self.release(owner, session_id);
                    proof {
                        assert forall|u2: u64|
                            old(self).occupies(u2) && !old(self).has_entry(u2, session_id)
                            implies self.occupies(u2) by {
                            assert(mid.occupies(u2));
                            if u2 == owner {
                                assert(old(self).has_entry(owner, session_id));
                            }
                        }
                    }
                },
                None => {
                    break ;
                },
            }
        }
        proof {
            assert forall|u2: u64|
                self.occupies(u2) implies old(self).occupies(u2) && !old(self).has_entry(
                u2,
                session_id,
            ) by {
                let j = choose|j: int|
                    0 <= j < self.entries@.len() && (#[trigger] self.entries@[j]).0 == u2;
                let s2 = self.entries@[j].1;
                assert(self.has_entry(u2, s2));
                assert(s2 != session_id);
                assert(old(self).has_entry(u2, s2));
                if old(self).has_entry(u2, session_id) {
                    let a = choose|a: int|
                        0 <= a < old(self).entries@.len() && #[trigger] old(self).entries@[a] == (
                        u2,
                        session_id,
                        );
                    let b = choose|b: int|
                        0 <= b < old(self).entries@.len() && #[trigger] old(self).entries@[b] == (
                        u2,
                        s2,
                        );
                    assert(old(self).entries@[a].0 == old(self).entries@[b].0);
                }
            }
        }
    }
}

/// A user appears in at most one registry entry: in a well-formed
/// registry, two entry indices owned by the same user are the same index,
/// so every user is bound to at most one live session id.
pub proof fn lemma_single_occupancy(r: Registry, i: int, j: int)
    requires
        r.wf(),
        0 <= i < r.entries@.len(),
        0 <= j < r.entries@.len(),
        r.entries@[i].0 == r.entries@[j].0,
    ensures
        i == j,
        r.entries@[i].1 == r.entries@[j].1,
{
}

/// Overlapping admissions exclude each other: once one invitation is
/// admitted, the registry marks both of its participants occupied, so a
/// later admission naming either participant finds an occupied user and,
/// by the contract of [`Registry::try_admit`], is refused.
pub proof fn lemma_admission_excludes_overlap(
    before: Registry,
    after: Registry,
    initiator: u64,
    responder: u64,
    other_initiator: u64,
    other_responder: u64,
    session_id: u64,
)
    requires
        after.entries@ == before.entries@.push((initiator, session_id)).push(
            (responder, session_id),
        ),
        other_initiator == initiator || other_initiator == responder || other_responder
            == initiator || other_responder == responder,
    ensures
        after.occupies(other_initiator) || after.occupies(other_responder),
{
    let n = before.entries@.len() as int;
    assert(after.entries@[n] == (initiator, session_id));
    assert(after.entries@[n + 1] == (responder, session_id));
    assert(after.occupies(initiator));
    assert(after.occupies(responder));
}

} // verus!
