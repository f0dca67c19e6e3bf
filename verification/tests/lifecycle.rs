use rps_engine::game::Move;
use rps_engine::handshake::{invite, InviteError};
use rps_engine::registry::Registry;
use rps_engine::session::{EndReason, Phase};
use rps_engine::supervisor::{step, Action, Event};

const ALICE: u64 = 11;
const BOB: u64 = 22;
const CAROL: u64 = 33;
const SID: u64 = 9000;

#[test]
fn decline_terminates_session_and_clears_registry() {
    let mut reg = Registry::new();
    let mut session = invite(&mut reg, ALICE, BOB, false, SID).unwrap();
    assert_eq!(session.phase, Phase::AwaitingResponse);
    assert_eq!(session.round, 1);

    let action = step(&mut session, &mut reg, Event::Decline { actor: BOB });
    assert_eq!(action, Action::InvitationDeclined);
    assert_eq!(session.phase, Phase::Terminated(EndReason::Declined));
    assert_eq!(session.round, 1);
    assert!(!reg.is_occupied(ALICE));
    assert!(!reg.is_occupied(BOB));
}

#[test]
fn rock_beats_scissors_resolves_round_one() {
    let mut reg = Registry::new();
    let mut session = invite(&mut reg, ALICE, BOB, false, SID).unwrap();

    let action = step(&mut session, &mut reg, Event::Accept { actor: BOB });
    assert_eq!(action, Action::RoundPrompt { round: 1, mover: ALICE });
    assert_eq!(session.phase, Phase::InProgress);

    let action = step(&mut session, &mut reg, Event::Choice { actor: ALICE, mv: Move::Rock });
    assert_eq!(action, Action::RoundPrompt { round: 1, mover: BOB });

    let action = step(&mut session, &mut reg, Event::Choice { actor: BOB, mv: Move::Scissors });
    assert_eq!(
        action,
        Action::ResultNotice {
            winner: ALICE,
            loser: BOB,
            winner_move: Move::Rock,
            loser_move: Move::Scissors,
        }
    );
    assert_eq!(session.phase, Phase::Terminated(EndReason::Resolved));
    assert_eq!(session.round, 1);
    assert!(!reg.is_occupied(ALICE));
    assert!(!reg.is_occupied(BOB));
}

#[test]
fn tied_round_advances_counter_and_initiator_moves_first_again() {
    let mut reg = Registry::new();
    let mut session = invite(&mut reg, ALICE, BOB, false, SID).unwrap();
    step(&mut session, &mut reg, Event::Accept { actor: BOB });

    step(&mut session, &mut reg, Event::Choice { actor: ALICE, mv: Move::Paper });
    let action = step(&mut session, &mut reg, Event::Choice { actor: BOB, mv: Move::Paper });
    assert_eq!(action, Action::RoundPrompt { round: 2, mover: ALICE });
    assert_eq!(session.phase, Phase::InProgress);
    assert_eq!(session.round, 2);
    assert_eq!(session.pending_move, None);
    assert!(reg.is_occupied(ALICE));
    assert!(reg.is_occupied(BOB));

    let action = step(&mut session, &mut reg, Event::Choice { actor: BOB, mv: Move::Rock });
    assert_eq!(action, Action::RejectedNotYourTurn);
    let action = step(&mut session, &mut reg, Event::Choice { actor: ALICE, mv: Move::Rock });
    assert_eq!(action, Action::RoundPrompt { round: 2, mover: BOB });
}

#[test]
fn inviting_an_occupied_user_fails_without_a_session() {
    let mut reg = Registry::new();
    let mut session = invite(&mut reg, ALICE, BOB, false, SID).unwrap();
    step(&mut session, &mut reg, Event::Accept { actor: BOB });

    let result = invite(&mut reg, CAROL, ALICE, false, SID + 1);
    assert_eq!(result.unwrap_err(), InviteError::AlreadyOccupied);
    assert!(!reg.is_occupied(CAROL));
    assert!(reg.is_occupied(ALICE));
    assert!(reg.is_occupied(BOB));
}

#[test]
fn repeated_ties_keep_raising_the_round_counter() {
    let mut reg = Registry::new();
    let mut session = invite(&mut reg, ALICE, BOB, false, SID).unwrap();
    step(&mut session, &mut reg, Event::Accept { actor: BOB });

    let ties = [Move::Rock, Move::Paper, Move::Scissors];
    for (i, mv) in ties.into_iter().enumerate() {
        step(&mut session, &mut reg, Event::Choice { actor: ALICE, mv });
        let action = step(&mut session, &mut reg, Event::Choice { actor: BOB, mv });
        let expected_round = (i as u64) + 2;
        assert_eq!(action, Action::RoundPrompt { round: expected_round, mover: ALICE });
        assert_eq!(session.round, expected_round);
    }
    assert_eq!(session.phase, Phase::InProgress);
}

#[test]
fn independent_sessions_do_not_interfere() {
    let mut reg = Registry::new();
    let mut first = invite(&mut reg, ALICE, BOB, false, SID).unwrap();
    let mut second = invite(&mut reg, CAROL, 44, false, SID + 1).unwrap();

    step(&mut first, &mut reg, Event::Accept { actor: BOB });
    step(&mut second, &mut reg, Event::Accept { actor: 44 });

    step(&mut first, &mut reg, Event::Choice { actor: ALICE, mv: Move::Rock });
    step(&mut first, &mut reg, Event::Choice { actor: BOB, mv: Move::Scissors });
    assert_eq!(first.phase, Phase::Terminated(EndReason::Resolved));
    assert!(!reg.is_occupied(ALICE));
    assert!(!reg.is_occupied(BOB));

    assert_eq!(second.phase, Phase::InProgress);
    assert!(reg.is_occupied(CAROL));
    assert!(reg.is_occupied(44));

    let action = step(&mut second, &mut reg, Event::Choice { actor: CAROL, mv: Move::Paper });
    assert_eq!(action, Action::RoundPrompt { round: 1, mover: 44 });
}

#[test]
fn idle_timeout_terminates_and_later_events_are_absorbed() {
    let mut reg = Registry::new();
    let mut session = invite(&mut reg, ALICE, BOB, false, SID).unwrap();

    let action = step(&mut session, &mut reg, Event::TimedOut);
    assert_eq!(action, Action::Expired);
    assert_eq!(session.phase, Phase::Terminated(EndReason::TimedOut));
    assert!(!reg.is_occupied(ALICE));
    assert!(!reg.is_occupied(BOB));

    let action = step(&mut session, &mut reg, Event::Accept { actor: BOB });
    assert_eq!(action, Action::Ignored);
    let action = step(&mut session, &mut reg, Event::Choice { actor: ALICE, mv: Move::Rock });
    assert_eq!(action, Action::Ignored);
    assert_eq!(session.phase, Phase::Terminated(EndReason::TimedOut));
}
