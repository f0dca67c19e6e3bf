use rps_engine::game::{resolve, Move, Outcome};

#[test]
fn rock_beats_scissors() {
    assert_eq!(resolve(Move::Rock, Move::Scissors), Outcome::FirstWins);
    assert_eq!(resolve(Move::Scissors, Move::Rock), Outcome::SecondWins);
}

#[test]
fn scissors_beats_paper() {
    assert_eq!(resolve(Move::Scissors, Move::Paper), Outcome::FirstWins);
    assert_eq!(resolve(Move::Paper, Move::Scissors), Outcome::SecondWins);
}

#[test]
fn paper_beats_rock() {
    assert_eq!(resolve(Move::Paper, Move::Rock), Outcome::FirstWins);
    assert_eq!(resolve(Move::Rock, Move::Paper), Outcome::SecondWins);
}

#[test]
fn identical_moves_tie() {
    assert_eq!(resolve(Move::Rock, Move::Rock), Outcome::Tie);
    assert_eq!(resolve(Move::Paper, Move::Paper), Outcome::Tie);
    assert_eq!(resolve(Move::Scissors, Move::Scissors), Outcome::Tie);
}

#[test]
fn all_nine_pairs_are_symmetric_complementary() {
    let moves = [Move::Rock, Move::Paper, Move::Scissors];
    for a in moves {
        for b in moves {
            let forward = resolve(a, b);
            let backward = resolve(b, a);
            match forward {
                Outcome::FirstWins => assert_eq!(backward, Outcome::SecondWins),
                Outcome::SecondWins => assert_eq!(backward, Outcome::FirstWins),
                Outcome::Tie => {
                    assert_eq!(backward, Outcome::Tie);
                    assert_eq!(a, b);
                },
            }
        }
    }
}
