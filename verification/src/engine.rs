//! The turn engine: one round of simultaneous-reveal move collection and
//! resolution, nested inside a session in phase `InProgress`.

use vstd::prelude::*;
use crate::game::{beats, resolve, Move, Outcome};
use crate::registry::Registry;
use crate::session::{EndReason, Phase, Session};

verus! {

/// How a submitted move was handled.
#[derive(Clone, Copy, Debug, PartialEq, Eq, Structural)]
pub enum TurnResult {
    /// The actor is not one of the two participants; nothing changed and
    /// the actor is to be notified privately.
    NotParticipant,
    /// It is not the actor's turn: either the actor's move for this round
    /// is already stored, or the round is waiting for the other
    /// participant. Nothing changed.
    NotYourTurn,
    /// The round's first move was stored; the other participant is to be
    /// prompted for theirs.
    MoveStored,
    /// Both moves were revealed and tied: the pending move is cleared, the
    /// round counter advances, and the session stays in progress with the
    /// initiator to move first again.
    RoundTied,
    /// Both moves were revealed and one dominated: the session is
    /// terminated as resolved and both registry entries are released. The
    /// fields carry each participant's revealed move for the final notice.
    RoundWon { winner: u64, loser: u64, winner_move: Move, loser_move: Move },
}

/// The session as it stands after the round's first move is stored.
pub open spec fn stored_state(pre: Session, mv: Move) -> Session {
    Session { pending_move: Some((pre.initiator, mv)), ..pre }
}

/// The session as it stands after a tied round: the pending move is
/// cleared and the round counter advances by one.
pub open spec fn tied_state(pre: Session) -> Session {
    Session { pending_move: None, round: (pre.round + 1) as u64, ..pre }
}

/// The session as it stands after a decisive round.
pub open spec fn resolved_state(pre: Session) -> Session {
    Session { phase: Phase::Terminated(EndReason::Resolved), pending_move: None, ..pre }
}

/// Accepts one move from one actor in an in-progress session.
///
/// The initiator always moves first in a round; the responder's move then
/// resolves the round. A tie advances the round counter — the only way it
/// ever changes — and play continues with the initiator to move first
/// again; a decisive outcome terminates the session and releases both
/// participants' registry entries.
pub fn submit_move(
    session: &mut Session,
    registry: &mut Registry,
    acting_user: u64,
    mv: Move,
) -> (r: TurnResult)
    requires
        old(session).wf(),
        old(session).phase is InProgress,
        old(session).round < u64::MAX,
        old(registry).wf(),
        old(session).linked(*old(registry)),
    ensures
        final(session).wf(),
        final(registry).wf(),
        final(session).same_identity(*old(session)),
        // The round counter never decreases, and moves exactly on a tie.
        final(session).round >= old(session).round,
        final(session).round != old(session).round <==> r == TurnResult::RoundTied,
        // A decisive outcome always terminates the session.
        r is RoundWon <==> final(session).phase is Terminated,
        !old(session).is_participant(acting_user) ==> r == TurnResult::NotParticipant && *final(session) == *old(session) && *final(registry) == *old(registry),
        acting_user == old(session).initiator && old(session).pending_move is Some ==> r
            == TurnResult::NotYourTurn && *final(session) == *old(session) && *final(registry)
            == *old(registry),
        acting_user == old(session).responder && old(session).pending_move is None ==> r
            == TurnResult::NotYourTurn && *final(session) == *old(session) && *final(registry)
            == *old(registry),
        acting_user == old(session).initiator && old(session).pending_move is None ==> r
            == TurnResult::MoveStored && *final(session) == stored_state(*old(session), mv)
            && *final(registry) == *old(registry) && final(session).linked(*final(registry)),
        acting_user == old(session).responder && old(session).pending_move is Some ==> {
            let first = old(session).pending_move.unwrap().1;
            &&& (first == mv ==> r == TurnResult::RoundTied && *final(session) == tied_state(
                *old(session),
            ) && *final(registry) == *old(registry) && final(session).linked(*final(registry)))
            &&& (beats(first, mv) ==> r == (TurnResult::RoundWon {
                winner: old(session).initiator,
                loser: old(session).responder,
                winner_move: first,
                loser_move: mv,
            }))
            &&& (beats(mv, first) ==> r == (TurnResult::RoundWon {
                winner: old(session).responder,
                loser: old(session).initiator,
                winner_move: mv,
                loser_move: first,
            }))
            &&& (first != mv ==> *final(session) == resolved_state(*old(session)) && !final(registry).occupies(old(session).initiator) && !final(registry).occupies(
                old(session).responder,
            ))
        },
        // Users outside the session keep their occupancy either way.
        forall|u2: u64|
            !old(session).is_participant(u2) ==> (final(registry).occupies(u2) <==> old(registry).occupies(u2)),
{
    if acting_user != session.initiator && acting_user != session.responder {
        return TurnResult::NotParticipant;
    }
    match session.pending_move {
        None => {
            if acting_user != session.initiator {
                return TurnResult::NotYourTurn;
            }
            session.pending_move = Some((acting_user, mv));
            TurnResult::MoveStored
        },
        Some((first_user, first_move)) => {
            if acting_user == first_user {
                return TurnResult::NotYourTurn;
            }
            match resolve(first_move, mv) {
                Outcome::Tie => {
                    session.pending_move = None;
                    session.round = session.round + 1;
                    TurnResult::RoundTied
                },
                Outcome::FirstWins => {
                    session.phase = Phase::Terminated(EndReason::Resolved);
                    session.pending_move = None;
                    registry.release_session(
                        session.initiator,
                        session.responder,
                        session.session_id,
                    );
                    TurnResult::RoundWon {
                        winner: first_user,
                        loser: acting_user,
                        winner_move: first_move,
                        loser_move: mv,
                    }
                },
                Outcome::SecondWins => {
                    session.phase = Phase::Terminated(EndReason::Resolved);
                    session.pending_move = None;
                    registry.release_session(
                        session.initiator,
                        session.responder,
                        session.session_id,
                    );
                    TurnResult::RoundWon {
                        winner: acting_user,
                        loser: first_user,
                        winner_move: mv,
                        loser_move: first_move,
                    }
                },
            }
        },
    }
}

} // verus!
