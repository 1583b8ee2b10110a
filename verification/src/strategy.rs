//! The five fixed decision policies, one per player.

use vstd::prelude::*;
use crate::game::{beater_of, RpsChoice, RpsPlayer};
use crate::record::{loss_window, most_common_in, RpsPlayerRecord};
use crate::rng::{random_below, random_choice};

verus! {

/// The move a player's policy picks, as a function of the histories it reads,
/// a uniformly random fallback move, and a uniformly random weight below ten.
///
/// - Player 1 plays the random fallback unconditionally.
/// - Player 2 plays scissors on weights below six, rock below eight, else
///   paper: heavily weighted toward scissors.
/// - Player 3 plays the opponent's most common recent losing move, or the
///   fallback when the opponent has no losses.
/// - Player 4 cycles: it plays the move that beats its own most recent move,
///   or the move that beats the fallback when it has no history yet.
/// - Player 5 mimics the opponent's most recent winning move, or plays the
///   fallback when the opponent has never won.
pub open spec fn strategy_spec(
    player: RpsPlayer,
    own_choices: Seq<RpsChoice>,
    opp_losing: Seq<RpsChoice>,
    opp_winning: Seq<RpsChoice>,
    fallback: RpsChoice,
    weight: int,
) -> RpsChoice {
    match player {
        RpsPlayer::Player1 => fallback,
        RpsPlayer::Player2 => if weight < 6 {
            RpsChoice::Scissors
        } else if weight < 8 {
            RpsChoice::Rock
        } else {
            RpsChoice::Paper
        },
        RpsPlayer::Player3 => if opp_losing.len() == 0 {
            fallback
        } else {
            most_common_in(loss_window(opp_losing))
        },
        RpsPlayer::Player4 => beater_of(
            if own_choices.len() == 0 {
                fallback
            } else {
                own_choices.last()
            },
        ),
        RpsPlayer::Player5 => if opp_winning.len() == 0 {
            fallback
        } else {
            opp_winning.last()
        },
    }
}

/// Applies a player's policy to the histories it reads, once the random draws
/// have been made: a pure function, pinned exactly by `strategy_spec`.
pub fn strategy_for(
    player: RpsPlayer,
    player_record: &RpsPlayerRecord,
    opponent_record: &RpsPlayerRecord,
    fallback: RpsChoice,
    weight: usize,
) -> (c: RpsChoice)
    requires
        weight < 10,
    ensures
        c == strategy_spec(
            player,
            player_record.choices@,
            opponent_record.losing_choices@,
            opponent_record.winning_choices@,
            fallback,
            weight as int,
        ),
{
    match player {
        RpsPlayer::Player1 => fallback,
        RpsPlayer::Player2 => {
            if weight < 6 {
                RpsChoice::Scissors
            } else if weight < 8 {
                RpsChoice::Rock
            } else {
                RpsChoice::Paper
            }
        },
        RpsPlayer::Player3 => {
            match opponent_record.most_common_loss() {
                Some(choice) => choice,
                None => fallback,
            }
        },
        RpsPlayer::Player4 => {
            let last = match player_record.most_recent_choice() {
                Some(choice) => choice,
                None => fallback,
            };
            match last {
                RpsChoice::Paper => RpsChoice::Scissors,
                RpsChoice::Rock => RpsChoice::Paper,
                RpsChoice::Scissors => RpsChoice::Rock,
            }
        },
        RpsPlayer::Player5 => {
            match opponent_record.most_recent_win() {
                Some(choice) => choice,
                None => fallback,
            }
        },
    }
}

/// Returns the acting player's move for this round. The random draws are made
/// here; whatever they come back as, the history-driven policies are pinned:
/// a loss-exploiter facing an opponent with losses, a cycler with a history,
/// and a mimic facing an opponent with wins each return the move
/// `strategy_spec` names, regardless of the randomness.
pub fn strategy(
    rng: &mut rand::rngs::ThreadRng,
    player: RpsPlayer,
    player_record: &RpsPlayerRecord,
    _opponent: RpsPlayer,
    opponent_record: &RpsPlayerRecord,
) -> (c: RpsChoice)
    ensures
        exists|fallback: RpsChoice, weight: int|
            0 <= weight < 10 && c == strategy_spec(
                player,
                player_record.choices@,
                opponent_record.losing_choices@,
                opponent_record.winning_choices@,
                fallback,
                weight,
            ),
        player == RpsPlayer::Player3 && opponent_record.losing_choices@.len() > 0 ==> c
            == most_common_in(loss_window(opponent_record.losing_choices@)),
        player == RpsPlayer::Player4 && player_record.choices@.len() > 0 ==> c == beater_of(
            player_record.choices@.last(),
        ),
        player == RpsPlayer::Player5 && opponent_record.winning_choices@.len() > 0 ==> c
            == opponent_record.winning_choices@.last(),
{
    let fallback = random_choice(rng);
    let weight = match player {
        RpsPlayer::Player2 => random_below(rng, 10),
        _ => 0,
    };
    strategy_for(player, player_record, opponent_record, fallback, weight)
}

/// The cycling policy, after having just played scissors, always answers rock
/// next, whatever the opponent's state and the random draws.
pub proof fn lemma_cycling_after_scissors(
    own_choices: Seq<RpsChoice>,
    opp_losing: Seq<RpsChoice>,
    opp_winning: Seq<RpsChoice>,
    fallback: RpsChoice,
    weight: int,
)
    requires
        own_choices.len() > 0,
        own_choices.last() == RpsChoice::Scissors,
    ensures
        strategy_spec(RpsPlayer::Player4, own_choices, opp_losing, opp_winning, fallback, weight)
            == RpsChoice::Rock,
{
}

/// The loss-exploiting policy, facing an opponent whose recorded losing moves
/// are exactly paper, paper, rock, answers paper: paper outnumbers rock in
/// the window. (With a longer history the window holds more than these three
/// moves, and older losses can outweigh them.)
pub proof fn lemma_loss_exploiting_paper_paper_rock(
    own_choices: Seq<RpsChoice>,
    opp_winning: Seq<RpsChoice>,
    fallback: RpsChoice,
    weight: int,
)
    ensures
        strategy_spec(
            RpsPlayer::Player3,
            own_choices,
            seq![RpsChoice::Paper, RpsChoice::Paper, RpsChoice::Rock],
            opp_winning,
            fallback,
            weight,
        ) == RpsChoice::Paper,
{
    reveal_with_fuel(crate::record::count_of, 4);
    let s = seq![RpsChoice::Paper, RpsChoice::Paper, RpsChoice::Rock];
    assert(loss_window(s) == s);
    assert(s.drop_last() =~= seq![RpsChoice::Paper, RpsChoice::Paper]);
    assert(seq![RpsChoice::Paper, RpsChoice::Paper].drop_last() =~= seq![RpsChoice::Paper]);
    assert(seq![RpsChoice::Paper].drop_last() =~= Seq::<RpsChoice>::empty());
    assert(crate::record::count_of(s, RpsChoice::Rock) == 1);
    assert(crate::record::count_of(s, RpsChoice::Paper) == 2);
    assert(crate::record::count_of(s, RpsChoice::Scissors) == 0);
}

} // verus!
