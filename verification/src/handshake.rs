//! The handshake protocol: the invitation and the accept/decline answer
//! that precede gameplay.

use vstd::prelude::*;
use crate::registry::Registry;
use crate::session::{EndReason, Phase, Session};

verus! {

/// Why an invitation was rejected.
#[derive(Clone, Copy, Debug, PartialEq, Eq, Structural)]
pub enum InviteError {
    /// The named opponent is of a disallowed participant class, or is the
    /// initiator themselves.
    InvalidOpponent,
    /// Registry admission failed: one of the two users is already in a
    /// session.
    AlreadyOccupied,
}

/// How an answer to an invitation was handled.
#[derive(Clone, Copy, Debug, PartialEq, Eq, Structural)]
pub enum RespondResult {
    /// The actor is not the invited responder; the session is unchanged
    /// and the actor is to be notified privately.
    NotAuthorized,
    /// The responder accepted; round 1 begins with the initiator to move.
    Accepted,
    /// The responder declined; the session is terminated and both registry
    /// entries are released.
    Declined,
}

/// Creates an invitation. Preconditions are checked in order: the
/// responder must not be of a disallowed participant class (the caller
/// passes that judgement in, e.g. "the named user is an automated agent"),
/// the responder must differ from the initiator, and registry admission
/// must succeed for both users. On success the new session is in phase
/// `AwaitingResponse` with round 1 and is linked to the registry under
/// `session_id`, the handle of the conversational context that will scope
/// its events.
pub fn invite(
    registry: &mut Registry,
    initiator: u64,
    responder: u64,
    responder_disallowed: bool,
    session_id: u64,
) -> (r: Result<Session, InviteError>)
    requires
        old(registry).wf(),
    ensures
        final(registry).wf(),
        responder_disallowed || responder == initiator ==> r == Err::<Session, InviteError>(
            InviteError::InvalidOpponent,
        ) && *final(registry) == *old(registry),
        !responder_disallowed && responder != initiator && (old(registry).occupies(initiator)
            || old(registry).occupies(responder)) ==> r == Err::<Session, InviteError>(
            InviteError::AlreadyOccupied,
        ) && *final(registry) == *old(registry),
        !responder_disallowed && responder != initiator && !old(registry).occupies(initiator)
            && !old(registry).occupies(responder) ==> r is Ok && (r.unwrap() == (Session {
            initiator,
            responder,
            phase: Phase::AwaitingResponse,
            round: 1,
            pending_move: None,
            session_id,
        })) && r.unwrap().wf() && r.unwrap().linked(*final(registry)),
        r is Ok ==> final(registry).entries@ == old(registry).entries@.push(
            (initiator, session_id),
        ).push((responder, session_id)),
        r is Err ==> *final(registry) == *old(registry),
        forall|u: u64|
            final(registry).occupies(u) <==> old(registry).occupies(u) || (r is Ok && (u
                == initiator || u == responder)),
{
    if responder_disallowed || responder == initiator {
        return Err(InviteError::InvalidOpponent);
    }
    match registry.try_admit(initiator, responder, session_id) {
        Ok(_) => Ok(
            Session {
                initiator,
                responder,
                phase: Phase::AwaitingResponse,
                round: 1,
                pending_move: None,
                session_id,
            },
        ),
        Err(_) => Err(InviteError::AlreadyOccupied),
    }
}

/// Answers a standing invitation. Only the responder may answer: any
/// other actor gets `NotAuthorized` and nothing changes. Declining
/// terminates the session with reason `Declined` and releases both
/// participants' registry entries; accepting moves the session to
/// `InProgress`, where round 1 begins with the initiator to move first.
pub fn respond(
    session: &mut Session,
    registry: &mut Registry,
    acting_user: u64,
    accept: bool,
) -> (r: RespondResult)
    requires
        old(session).wf(),
        old(session).phase is AwaitingResponse,
        old(registry).wf(),
        old(session).linked(*old(registry)),
    ensures
        final(session).wf(),
        final(registry).wf(),
        final(session).same_identity(*old(session)),
        final(session).round == old(session).round,
        acting_user != old(session).responder ==> r == RespondResult::NotAuthorized && *final(session) == *old(session) && *final(registry) == *old(registry),
        acting_user == old(session).responder && accept ==> r == RespondResult::Accepted && (
        *final(session) == (Session { phase: Phase::InProgress, ..*old(session) })) && *final(registry) == *old(registry) && final(session).linked(*final(registry)),
        acting_user == old(session).responder && !accept ==> r == RespondResult::Declined && (
        *final(session) == (Session {
            phase: Phase::Terminated(EndReason::Declined),
            ..*old(session)
        })) && !final(registry).occupies(old(session).initiator) && !final(registry).occupies(
            old(session).responder,
        ),
        acting_user == old(session).responder && !accept ==> forall|u2: u64|
            !old(session).is_participant(u2) ==> (final(registry).occupies(u2) <==> old(registry).occupies(u2)),
{
    if acting_user != session.responder {
        return RespondResult::NotAuthorized;
    }
    if accept {
        session.phase = Phase::InProgress;
        RespondResult::Accepted
    } else {
        session.phase = Phase::Terminated(EndReason::Declined);
        registry.release_session(session.initiator, session.responder, session.session_id);
        RespondResult::Declined
    }
}

} // verus!
