//! The live state of one matchmaking-plus-gameplay session.

use vstd::prelude::*;
use crate::game::Move;
use crate::registry::Registry;

verus! {

/// Why a session reached its terminal phase.
#[derive(Clone, Copy, Debug, PartialEq, Eq, Structural)]
pub enum EndReason {
    /// The responder turned the invitation down.
    Declined,
    /// A round produced a winner.
    Resolved,
    /// A participant ended the session explicitly.
    Cancelled,
    /// The inactivity timeout elapsed with no further events.
    TimedOut,
}

/// The coarse lifecycle stage of a session.
#[derive(Clone, Copy, Debug, PartialEq, Eq, Structural)]
pub enum Phase {
    /// The invitation stands; the responder has not answered yet.
    AwaitingResponse,
    /// The invitation was accepted; rounds are being played.
    InProgress,
    /// The session is over, for the recorded reason. No event moves a
    /// session out of this phase.
    Terminated(EndReason),
}

/// One session between two distinct users.
///
/// A session is created only after registry admission succeeds for both
/// participants, is mutated only by the handshake, turn-engine and
/// supervisor functions of this crate, and its two registry entries are
/// removed on every terminal transition.
#[derive(Debug)]
pub struct Session {
    /// The user who sent the invitation; by the engine's fixed rule also
    /// the first mover of every round.
    pub initiator: u64,
    /// The user the invitation names.
    pub responder: u64,
    /// The lifecycle stage.
    pub phase: Phase,
    /// The current round, starting at 1; it increments only on a tie and
    /// never resets within the session's lifetime.
    pub round: u64,
    /// The first move submitted in the current round, with its owner;
    /// cleared each round.
    pub pending_move: Option<(u64, Move)>,
    /// The shared discriminator of the session's two registry entries: the
    /// handle of the externally created conversational context that scopes
    /// this session's events.
    pub session_id: u64,
}

impl Session {
    /// Internal consistency: the participants are distinct; the round
    /// counter starts no lower than 1; a pending move, when present,
    /// belongs to the initiator (the fixed first mover); before the
    /// invitation is answered no move is stored and the round is still 1.
    pub open spec fn wf(self) -> bool {
        &&& self.initiator != self.responder
        &&& self.round >= 1
        &&& (self.pending_move is Some ==> self.pending_move.unwrap().0 == self.initiator)
        &&& (self.phase is AwaitingResponse ==> self.pending_move is None && self.round == 1)
        &&& (self.pending_move is Some ==> self.phase is InProgress)
    }

    /// `user` is one of the two participants.
    pub open spec fn is_participant(self, user: u64) -> bool {
        user == self.initiator || user == self.responder
    }

    /// Both participants hold a registry entry under this session's id.
    /// Every non-terminated session is kept linked to the registry.
    pub open spec fn linked(self, registry: Registry) -> bool {
        registry.has_entry(self.initiator, self.session_id) && registry.has_entry(
            self.responder,
            self.session_id,
        )
    }

    /// The participants' identities and the session id carried unchanged
    /// through a transition from `pre`.
    pub open spec fn same_identity(self, pre: Session) -> bool {
        &&& self.initiator == pre.initiator
        &&& self.responder == pre.responder
        &&& self.session_id == pre.session_id
    }
}

} // verus!
