//! Moves, players, and the head-to-head outcome rule for a single match.

use vstd::prelude::*;

verus! {

/// All possible player choices in a rock paper scissors game.
#[derive(Debug, Clone, Copy, PartialEq, Eq, Structural)]
pub enum RpsChoice {
    Rock,
    Paper,
    Scissors,
}

/// All possible players in this scenario.
#[derive(Debug, Clone, Copy, PartialEq, Eq, Structural)]
pub enum RpsPlayer {
    Player1,
    Player2,
    Player3,
    Player4,
    Player5,
}

/// Winner of a rock paper scissors game.
#[derive(Debug, Clone, Copy, PartialEq, Eq, Structural)]
pub enum RpsWinner {
    Player(RpsPlayer),
    Draw,
}

/// Relative result of comparing the two ordered moves of a match.
#[derive(Debug, Clone, Copy, PartialEq, Eq, Structural)]
pub enum RpsOutcome {
    FirstWins,
    SecondWins,
    Tied,
}

/// True when move `a` defeats move `b`: rock beats scissors, scissors beats
/// paper, paper beats rock.
pub open spec fn beats(a: RpsChoice, b: RpsChoice) -> bool {
    match (a, b) {
        (RpsChoice::Rock, RpsChoice::Scissors) => true,
        (RpsChoice::Scissors, RpsChoice::Paper) => true,
        (RpsChoice::Paper, RpsChoice::Rock) => true,
        _ => false,
    }
}

/// Outcome of a match where the first player plays `a` and the second `b`.
pub open spec fn outcome_of(a: RpsChoice, b: RpsChoice) -> RpsOutcome {
    if a == b {
        RpsOutcome::Tied
    } else if beats(a, b) {
        RpsOutcome::FirstWins
    } else {
        RpsOutcome::SecondWins
    }
}

/// The move that defeats `m`: the choice `c` with `beats(c, m)`.
pub open spec fn beater_of(m: RpsChoice) -> RpsChoice {
    match m {
        RpsChoice::Rock => RpsChoice::Paper,
        RpsChoice::Paper => RpsChoice::Scissors,
        RpsChoice::Scissors => RpsChoice::Rock,
    }
}

/// The outcome rule is total and symmetric: swapping the two moves flips a
/// decisive outcome and keeps a tie, and identical moves always tie.
pub proof fn lemma_outcome_complementary(a: RpsChoice, b: RpsChoice)
    ensures
        outcome_of(a, b) == RpsOutcome::FirstWins <==> outcome_of(b, a) == RpsOutcome::SecondWins,
        outcome_of(a, b) == RpsOutcome::Tied <==> outcome_of(b, a) == RpsOutcome::Tied,
        outcome_of(a, b) == RpsOutcome::Tied <==> a == b,
        outcome_of(a, a) == RpsOutcome::Tied,
{
}

/// `beater_of` really names the winning reply: it defeats its argument.
pub proof fn lemma_beater_beats(m: RpsChoice)
    ensures
        beats(beater_of(m), m),
        outcome_of(beater_of(m), m) == RpsOutcome::FirstWins,
{
}

/// A single rock paper scissors match.
#[derive(Debug, Clone, Copy, PartialEq, Eq, Structural)]
pub struct RpsMatch {
    pub player_1: RpsPlayer,
    pub player_2: RpsPlayer,
    pub player_1_choice: RpsChoice,
    pub player_2_choice: RpsChoice,
}

impl RpsMatch {
    /// Creates a new RpsMatch.
    pub fn new(
        player_1: RpsPlayer,
        player_2: RpsPlayer,
        player_1_choice: RpsChoice,
        player_2_choice: RpsChoice,
    ) -> (m: Self)
        ensures
            m == (RpsMatch { player_1, player_2, player_1_choice, player_2_choice }),
    {
        RpsMatch { player_1, player_2, player_1_choice, player_2_choice }
    }

    /// The winner this match's two moves determine, as a spec value.
    pub open spec fn spec_winner(self) -> RpsWinner {
        match outcome_of(self.player_1_choice, self.player_2_choice) {
            RpsOutcome::FirstWins => RpsWinner::Player(self.player_1),
            RpsOutcome::SecondWins => RpsWinner::Player(self.player_2),
            RpsOutcome::Tied => RpsWinner::Draw,
        }
    }

    /// Computes the winner of a rock paper scissors match.
    pub fn winner(&self) -> (w: RpsWinner)
        ensures
            w == self.spec_winner(),
    {
        match self.player_1_choice {
            RpsChoice::Rock => {
                match self.player_2_choice {
                    RpsChoice::Rock => RpsWinner::Draw,
                    RpsChoice::Paper => RpsWinner::Player(self.player_2),
                    RpsChoice::Scissors => RpsWinner::Player(self.player_1),
                }
            },
            RpsChoice::Paper => {
                match self.player_2_choice {
                    RpsChoice::Rock => RpsWinner::Player(self.player_1),
                    RpsChoice::Paper => RpsWinner::Draw,
                    RpsChoice::Scissors => RpsWinner::Player(self.player_2),
                }
            },
            RpsChoice::Scissors => {
                match self.player_2_choice {
                    RpsChoice::Rock => RpsWinner::Player(self.player_2),
                    RpsChoice::Paper => RpsWinner::Player(self.player_1),
                    RpsChoice::Scissors => RpsWinner::Draw,
                }
            },
        }
    }
}

} // verus!
