//! The session supervisor: drives one session to completion.
//!
//! The surrounding process owns the event loop: it awaits the next
//! relevant inbound event or the inactivity deadline, whichever comes
//! first, turns what arrived into an [`Event`], and calls [`step`]. The
//! decision of what the event does to the session — and the guarantee
//! that every terminal path releases both registry entries — lives here,
//! where it is verified; the caller only performs the returned [`Action`]
//! (a best-effort notification) and never mutates the session itself.
//!
//! When the hosting conversational context is destroyed out-of-band, the
//! session object may no longer be reachable; the caller then frees the
//! participants directly through
//! [`crate::registry::Registry::purge_by_session_id`].

use vstd::prelude::*;
use crate::engine::{self, TurnResult};
use crate::game::{beats, Move};
use crate::handshake::{self, RespondResult};
use crate::registry::Registry;
use crate::session::{EndReason, Phase, Session};

verus! {

/// The inactivity window, in seconds, measured from session creation:
/// when it elapses with no further events the caller must feed
/// [`Event::TimedOut`] so that the session terminates and the registry
/// entries are released.
pub const TIMEOUT_SECONDS: u64 = 300;

/// One inbound occurrence scoped to a session's conversational context,
/// as the surrounding process decodes it.
#[derive(Clone, Copy, Debug, PartialEq, Eq, Structural)]
pub enum Event {
    /// `actor` answered the invitation with yes.
    Accept { actor: u64 },
    /// `actor` answered the invitation with no.
    Decline { actor: u64 },
    /// `actor` selected the move `mv`.
    Choice { actor: u64, mv: Move },
    /// `actor` asked to end the session.
    Stop { actor: u64 },
    /// The inactivity timeout elapsed with no further events.
    TimedOut,
}

/// What the caller should do after a step: at most one best-effort
/// notification. Delivery failures are not propagated back into session
/// state.
#[derive(Clone, Copy, Debug, PartialEq, Eq, Structural)]
pub enum Action {
    /// Nothing to do; the event did not apply to the session's phase.
    Ignored,
    /// Tell the actor privately that only the invited responder may
    /// answer the invitation.
    RejectedNotAuthorized,
    /// Tell the actor privately that they are not in this session.
    RejectedNotParticipant,
    /// Tell the actor privately that it is not their turn.
    RejectedNotYourTurn,
    /// Announce publicly that the invitation was declined.
    InvitationDeclined,
    /// Prompt `mover` publicly for their move in round `round`.
    RoundPrompt { round: u64, mover: u64 },
    /// Announce the decisive round publicly, with both revealed moves.
    ResultNotice { winner: u64, loser: u64, winner_move: Move, loser_move: Move },
    /// Announce publicly that `by` terminated the session.
    Stopped { by: u64 },
    /// The session expired silently; no further events are to be
    /// processed for it.
    Expired,
}

/// The session as it stands after a terminal transition that did not come
/// out of a played round: declined, stopped, or timed out.
pub open spec fn halted_state(pre: Session, reason: EndReason) -> Session {
    Session { phase: Phase::Terminated(reason), pending_move: None, ..pre }
}

/// Dispatches one event to the handshake protocol or the turn engine by
/// its tag and the session's phase, or terminates the session on a stop
/// or timeout. A terminated session absorbs every further event
/// unchanged, and every transition into the terminated phase leaves both
/// participants free in the registry.
pub fn step(session: &mut Session, registry: &mut Registry, event: Event) -> (a: Action)
    requires
        old(session).wf(),
        old(session).round < u64::MAX,
        old(registry).wf(),
        !(old(session).phase is Terminated) ==> old(session).linked(*old(registry)),
    ensures
        final(session).wf(),
        final(registry).wf(),
        final(session).same_identity(*old(session)),
        final(session).round >= old(session).round,
        // A terminated session absorbs every event.
        old(session).phase is Terminated ==> *final(session) == *old(session) && *final(registry) == *old(registry) && a == Action::Ignored,
        // A live session that stays live stays linked to the registry.
        !(final(session).phase is Terminated) ==> final(session).linked(*final(registry)),
        // Every terminal transition frees both participants.
        final(session).phase is Terminated && !(old(session).phase is Terminated) ==> !final(registry).occupies(old(session).initiator) && !final(registry).occupies(old(session).responder),
        // Bystanders' occupancy is never touched.
        forall|u2: u64|
            !old(session).is_participant(u2) ==> (final(registry).occupies(u2) <==> old(registry).occupies(u2)),
        // The answer to an invitation.
        old(session).phase is AwaitingResponse ==> {
            &&& (event matches Event::Accept { actor } ==> (if actor == old(session).responder {
                *final(session) == (Session { phase: Phase::InProgress, ..*old(session) }) && a
                    == (Action::RoundPrompt { round: 1, mover: old(session).initiator })
                    && *final(registry) == *old(registry)
            } else {
                *final(session) == *old(session) && *final(registry) == *old(registry) && a
                    == Action::RejectedNotAuthorized
            }))
            &&& (event matches Event::Decline { actor } ==> (if actor == old(session).responder {
                *final(session) == halted_state(*old(session), EndReason::Declined) && a
                    == Action::InvitationDeclined
            } else {
                *final(session) == *old(session) && *final(registry) == *old(registry) && a
                    == Action::RejectedNotAuthorized
            }))
            &&& (event matches Event::Choice { actor, mv } ==> *final(session) == *old(session)
                && *final(registry) == *old(registry) && a == Action::Ignored)
        },
        // A move submitted while the game runs.
        old(session).phase is InProgress ==> {
            &&& (event matches Event::Choice { actor, mv } ==> {
                &&& (!old(session).is_participant(actor) ==> *final(session) == *old(session)
                    && *final(registry) == *old(registry) && a == Action::RejectedNotParticipant)
                &&& (actor == old(session).initiator ==> (if old(session).pending_move is None {
                    *final(session) == engine::stored_state(*old(session), mv) && *final(registry)
                        == *old(registry) && a == (Action::RoundPrompt {
                        round: old(session).round,
                        mover: old(session).responder,
                    })
                } else {
                    *final(session) == *old(session) && *final(registry) == *old(registry) && a
                        == Action::RejectedNotYourTurn
                }))
                &&& (actor == old(session).responder ==> (if old(session).pending_move is None {
                    *final(session) == *old(session) && *final(registry) == *old(registry) && a
                        == Action::RejectedNotYourTurn
                } else {
                    let first = old(session).pending_move.unwrap().1;
                    if first == mv {
                        *final(session) == engine::tied_state(*old(session)) && *final(registry)
                            == *old(registry) && a == (Action::RoundPrompt {
                            round: (old(session).round + 1) as u64,
                            mover: old(session).initiator,
                        })
                    } else {
                        *final(session) == engine::resolved_state(*old(session)) && (
                        beats(first, mv) ==> a == (Action::ResultNotice {
                            winner: old(session).initiator,
                            loser: old(session).responder,
                            winner_move: first,
                            loser_move: mv,
                        })) && (beats(mv, first) ==> a == (Action::ResultNotice {
                            winner: old(session).responder,
                            loser: old(session).initiator,
                            winner_move: mv,
                            loser_move: first,
                        }))
                    }
                }))
            })
            &&& (event matches Event::Accept { actor } ==> *final(session) == *old(session)
                && *final(registry) == *old(registry) && a == Action::Ignored)
            &&& (event matches Event::Decline { actor } ==> *final(session) == *old(session)
                && *final(registry) == *old(registry) && a == Action::Ignored)
        },
        // Explicit termination by a current participant, in any live phase.
        !(old(session).phase is Terminated) ==> {
            &&& (event matches Event::Stop { actor } ==> (if old(session).is_participant(actor) {
                *final(session) == halted_state(*old(session), EndReason::Cancelled) && a == (
                Action::Stopped { by: actor })
            } else {
                *final(session) == *old(session) && *final(registry) == *old(registry) && a
                    == Action::RejectedNotParticipant
            }))
            &&& (event is TimedOut ==> *final(session) == halted_state(
                *old(session),
                EndReason::TimedOut,
            ) && a == Action::Expired)
        },
{
    match session.phase {
        Phase::Terminated(_) => Action::Ignored,
        Phase::AwaitingResponse => match event {
            Event::Accept { actor } => match handshake::respond(session, registry, actor, true) {
                RespondResult::NotAuthorized => Action::RejectedNotAuthorized,
                _ => Action::RoundPrompt { round: 1, mover: session.initiator },
            },
            Event::Decline { actor } => match handshake::respond(session, registry, actor, false) {
                RespondResult::NotAuthorized => Action::RejectedNotAuthorized,
                _ => Action::InvitationDeclined,
            },
            Event::Choice { .. } => Action::Ignored,
            Event::Stop { actor } => halt(session, registry, actor),
            Event::TimedOut => {
                expire(session, registry);
                Action::Expired
            },
        },
        Phase::InProgress => match event {
            Event::Choice { actor, mv } => match engine::submit_move(session, registry, actor, mv) {
                TurnResult::NotParticipant => Action::RejectedNotParticipant,
                TurnResult::NotYourTurn => Action::RejectedNotYourTurn,
                TurnResult::MoveStored => Action::RoundPrompt {
                    round: session.round,
                    mover: session.responder,
                },
                TurnResult::RoundTied => Action::RoundPrompt {
                    round: session.round,
                    mover: session.initiator,
                },
                TurnResult::RoundWon { winner, loser, winner_move, loser_move } => Action::ResultNotice {
                    winner,
                    loser,
                    winner_move,
                    loser_move,
                },
            },
            Event::Accept { .. } => Action::Ignored,
            Event::Decline { .. } => Action::Ignored,
            Event::Stop { actor } => halt(session, registry, actor),
            Event::TimedOut => {
                expire(session, registry);
                Action::Expired
            },
        },
    }
}

/// Ends a live session on a participant's explicit stop request: the
/// session terminates as cancelled, both registry entries are released,
/// and a non-participant's request changes nothing.
fn halt(session: &mut Session, registry: &mut Registry, actor: u64) -> (a: Action)
    requires
        old(session).wf(),
        !(old(session).phase is Terminated),
        old(registry).wf(),
        old(session).linked(*old(registry)),
    ensures
        final(session).wf(),
        final(registry).wf(),
        old(session).is_participant(actor) ==> *final(session) == halted_state(
            *old(session),
            EndReason::Cancelled,
        ) && a == (Action::Stopped { by: actor }) && !final(registry).occupies(
            old(session).initiator,
        ) && !final(registry).occupies(old(session).responder),
        !old(session).is_participant(actor) ==> *final(session) == *old(session) && *final(registry) == *old(registry) && a == Action::RejectedNotParticipant,
        forall|u2: u64|
            !old(session).is_participant(u2) ==> (final(registry).occupies(u2) <==> old(registry).occupies(u2)),
{
    if actor != session.initiator && actor != session.responder {
        return Action::RejectedNotParticipant;
    }
    session.phase = Phase::Terminated(EndReason::Cancelled);
    session.pending_move = None;
    registry.release_session(session.initiator, session.responder, session.session_id);
    Action::Stopped { by: actor }
}

/// Ends a live session whose inactivity window elapsed: the session
/// terminates as timed out and both registry entries are released, so the
/// participants are never locked out of new sessions by a session nobody
/// finished.
fn expire(session: &mut Session, registry: &mut Registry)
    requires
        old(session).wf(),
        !(old(session).phase is Terminated),
        old(registry).wf(),
        old(session).linked(*old(registry)),
    ensures
        final(session).wf(),
        final(registry).wf(),
        *final(session) == halted_state(*old(session), EndReason::TimedOut),
        !final(registry).occupies(old(session).initiator),
        !final(registry).occupies(old(session).responder),
        forall|u2: u64|
            !old(session).is_participant(u2) ==> (final(registry).occupies(u2) <==> old(registry).occupies(u2)),
{
    session.phase = Phase::Terminated(EndReason::TimedOut);
    session.pending_move = None;
    registry.release_session(session.initiator, session.responder, session.session_id);
}

} // verus!
