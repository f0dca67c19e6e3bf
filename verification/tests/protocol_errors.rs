use rps_engine::game::Move;
use rps_engine::handshake::{invite, respond, InviteError, RespondResult};
use rps_engine::registry::Registry;
use rps_engine::session::{EndReason, Phase};
use rps_engine::supervisor::{step, Action, Event};

const ALICE: u64 = 1;
const BOB: u64 = 2;
const MALLORY: u64 = 66;
const SID: u64 = 4242;

#[test]
fn inviting_oneself_is_invalid() {
    let mut reg = Registry::new();
    let result = invite(&mut reg, ALICE, ALICE, false, SID);
    assert_eq!(result.unwrap_err(), InviteError::InvalidOpponent);
    assert!(!reg.is_occupied(ALICE));
}

#[test]
fn inviting_a_disallowed_opponent_is_invalid() {
    let mut reg = Registry::new();
    let result = invite(&mut reg, ALICE, BOB, true, SID);
    assert_eq!(result.unwrap_err(), InviteError::InvalidOpponent);
    assert!(!reg.is_occupied(ALICE));
    assert!(!reg.is_occupied(BOB));
}

#[test]
fn only_the_responder_may_answer() {
    let mut reg = Registry::new();
    let mut session = invite(&mut reg, ALICE, BOB, false, SID).unwrap();

    assert_eq!(respond(&mut session, &mut reg, ALICE, true), RespondResult::NotAuthorized);
    assert_eq!(respond(&mut session, &mut reg, MALLORY, true), RespondResult::NotAuthorized);
    assert_eq!(session.phase, Phase::AwaitingResponse);
    assert!(reg.is_occupied(ALICE));
    assert!(reg.is_occupied(BOB));

    assert_eq!(respond(&mut session, &mut reg, BOB, true), RespondResult::Accepted);
    assert_eq!(session.phase, Phase::InProgress);
}

#[test]
fn outsider_moves_are_rejected_privately() {
    let mut reg = Registry::new();
    let mut session = invite(&mut reg, ALICE, BOB, false, SID).unwrap();
    step(&mut session, &mut reg, Event::Accept { actor: BOB });

    let action = step(&mut session, &mut reg, Event::Choice { actor: MALLORY, mv: Move::Rock });
    assert_eq!(action, Action::RejectedNotParticipant);
    assert_eq!(session.phase, Phase::InProgress);
    assert_eq!(session.pending_move, None);
}

#[test]
fn responder_cannot_move_first_and_initiator_cannot_move_twice() {
    let mut reg = Registry::new();
    let mut session = invite(&mut reg, ALICE, BOB, false, SID).unwrap();
    step(&mut session, &mut reg, Event::Accept { actor: BOB });

    let action = step(&mut session, &mut reg, Event::Choice { actor: BOB, mv: Move::Rock });
    assert_eq!(action, Action::RejectedNotYourTurn);

    let action = step(&mut session, &mut reg, Event::Choice { actor: ALICE, mv: Move::Rock });
    assert_eq!(action, Action::RoundPrompt { round: 1, mover: BOB });

    let action = step(&mut session, &mut reg, Event::Choice { actor: ALICE, mv: Move::Paper });
    assert_eq!(action, Action::RejectedNotYourTurn);
    assert_eq!(session.pending_move, Some((ALICE, Move::Rock)));
}

#[test]
fn a_participant_can_stop_the_session_at_any_phase() {
    let mut reg = Registry::new();
    let mut session = invite(&mut reg, ALICE, BOB, false, SID).unwrap();

    let action = step(&mut session, &mut reg, Event::Stop { actor: ALICE });
    assert_eq!(action, Action::Stopped { by: ALICE });
    assert_eq!(session.phase, Phase::Terminated(EndReason::Cancelled));
    assert!(!reg.is_occupied(ALICE));
    assert!(!reg.is_occupied(BOB));

    let mut reg = Registry::new();
    let mut session = invite(&mut reg, ALICE, BOB, false, SID).unwrap();
    step(&mut session, &mut reg, Event::Accept { actor: BOB });
    step(&mut session, &mut reg, Event::Choice { actor: ALICE, mv: Move::Rock });
    let action = step(&mut session, &mut reg, Event::Stop { actor: BOB });
    assert_eq!(action, Action::Stopped { by: BOB });
    assert_eq!(session.phase, Phase::Terminated(EndReason::Cancelled));
    assert!(!reg.is_occupied(ALICE));
    assert!(!reg.is_occupied(BOB));
}

#[test]
fn an_outsider_cannot_stop_the_session() {
    let mut reg = Registry::new();
    let mut session = invite(&mut reg, ALICE, BOB, false, SID).unwrap();
    step(&mut session, &mut reg, Event::Accept { actor: BOB });

    let action = step(&mut session, &mut reg, Event::Stop { actor: MALLORY });
    assert_eq!(action, Action::RejectedNotParticipant);
    assert_eq!(session.phase, Phase::InProgress);
    assert!(reg.is_occupied(ALICE));
    assert!(reg.is_occupied(BOB));
}

#[test]
fn context_deletion_frees_both_participants() {
    let mut reg = Registry::new();
    let session = invite(&mut reg, ALICE, BOB, false, SID).unwrap();
    assert!(reg.is_occupied(ALICE));
    assert!(reg.is_occupied(BOB));

    reg.purge_by_session_id(session.session_id);
    assert!(!reg.is_occupied(ALICE));
    assert!(!reg.is_occupied(BOB));

    assert!(invite(&mut reg, ALICE, BOB, false, SID + 1).is_ok());
}

#[test]
fn handshake_events_are_ignored_while_the_game_runs() {
    let mut reg = Registry::new();
    let mut session = invite(&mut reg, ALICE, BOB, false, SID).unwrap();
    step(&mut session, &mut reg, Event::Accept { actor: BOB });

    assert_eq!(step(&mut session, &mut reg, Event::Accept { actor: BOB }), Action::Ignored);
    assert_eq!(step(&mut session, &mut reg, Event::Decline { actor: BOB }), Action::Ignored);
    assert_eq!(session.phase, Phase::InProgress);
}

#[test]
fn choice_events_are_ignored_before_acceptance() {
    let mut reg = Registry::new();
    let mut session = invite(&mut reg, ALICE, BOB, false, SID).unwrap();

    let action = step(&mut session, &mut reg, Event::Choice { actor: ALICE, mv: Move::Rock });
    assert_eq!(action, Action::Ignored);
    assert_eq!(session.phase, Phase::AwaitingResponse);
    assert_eq!(session.pending_move, None);
}
