//! The move resolver: the fixed three-way cyclic-dominance rule.

use vstd::prelude::*;

verus! {

/// One of the three choices a participant can reveal in a round.
///
/// No total order is defined; dominance is cyclic: rock beats scissors,
/// scissors beats paper, paper beats rock, and identical moves tie.
#[derive(Clone, Copy, Debug, PartialEq, Eq, Structural)]
pub enum Move {
    Rock,
    Paper,
    Scissors,
}

/// The result of resolving two simultaneously revealed moves.
///
/// `FirstWins` and `SecondWins` name the winner by argument position.
#[derive(Clone, Copy, Debug, PartialEq, Eq, Structural)]
pub enum Outcome {
    FirstWins,
    SecondWins,
    Tie,
}

/// The cyclic dominance relation: `a` defeats `b`.
pub open spec fn beats(a: Move, b: Move) -> bool {
    ||| a is Rock && b is Scissors
    ||| a is Scissors && b is Paper
    ||| a is Paper && b is Rock
}

/// What resolving the pair `(a, b)` yields, by the dominance table.
pub open spec fn resolve_spec(a: Move, b: Move) -> Outcome {
    if beats(a, b) {
        Outcome::FirstWins
    } else if beats(b, a) {
        Outcome::SecondWins
    } else {
        Outcome::Tie
    }
}

/// Resolves two simultaneous moves to a winner or a tie.
///
/// Deterministic, pure, and total over all nine input pairs.
pub fn resolve(a: Move, b: Move) -> (r: Outcome)
    ensures
        r == resolve_spec(a, b),
        r is FirstWins <==> beats(a, b),
        r is SecondWins <==> beats(b, a),
        r is Tie <==> a == b,
{
    match (a, b) {
        (Move::Rock, Move::Scissors) => Outcome::FirstWins,
        (Move::Scissors, Move::Paper) => Outcome::FirstWins,
        (Move::Paper, Move::Rock) => Outcome::FirstWins,
        (Move::Scissors, Move::Rock) => Outcome::SecondWins,
        (Move::Paper, Move::Scissors) => Outcome::SecondWins,
        (Move::Rock, Move::Paper) => Outcome::SecondWins,
        _ => Outcome::Tie,
    }
}

/// The resolver is symmetric-complementary: swapping the arguments swaps
/// the winner's side, a tie is a tie from either side, and equal moves
/// always tie. Together with the totality of [`resolve`] this covers all
/// nine combinations.
pub proof fn lemma_resolve_symmetric(a: Move, b: Move)
    ensures
        resolve_spec(a, b) is FirstWins <==> resolve_spec(b, a) is SecondWins,
        resolve_spec(a, b) is Tie <==> resolve_spec(b, a) is Tie,
        resolve_spec(a, b) is Tie <==> a == b,
        resolve_spec(a, a) is Tie,
{
}

} // verus!
