use rps_sim::game::RpsChoice;
use rps_sim::record::RpsPlayerRecord;
use rps_sim::game::RpsPlayer;
use rps_sim::rng::choice_from_index;
use rps_sim::strategy::{strategy, strategy_for};

#[test]
fn choice_from_index_maps_all_three() {
    assert_eq!(choice_from_index(0), RpsChoice::Rock);
    assert_eq!(choice_from_index(1), RpsChoice::Paper);
    assert_eq!(choice_from_index(2), RpsChoice::Scissors);
}

#[test]
fn uniform_random_player_plays_the_fallback() {
    let own = RpsPlayerRecord::new();
    let opp = RpsPlayerRecord::new();
    for w in 0..10 {
        assert_eq!(
            strategy_for(RpsPlayer::Player1, &own, &opp, RpsChoice::Paper, w),
            RpsChoice::Paper
        );
    }
}

#[test]
fn scissors_biased_player_follows_the_weight() {
    let own = RpsPlayerRecord::new();
    let opp = RpsPlayerRecord::new();
    for w in 0..10 {
        let expected = if w < 6 {
            RpsChoice::Scissors
        } else if w < 8 {
            RpsChoice::Rock
        } else {
            RpsChoice::Paper
        };
        assert_eq!(
            strategy_for(RpsPlayer::Player2, &own, &opp, RpsChoice::Rock, w),
            expected
        );
    }
}

#[test]
fn loss_exploiting_player_picks_paper_after_paper_paper_rock() {
    let own = RpsPlayerRecord::new();
    let mut opp = RpsPlayerRecord::new();
    opp.lose(RpsChoice::Paper);
    opp.lose(RpsChoice::Paper);
    opp.lose(RpsChoice::Rock);
    assert_eq!(
        strategy_for(RpsPlayer::Player3, &own, &opp, RpsChoice::Scissors, 0),
        RpsChoice::Paper
    );
    // The random draws cannot change it either.
    let mut rng = rand::rng();
    for _ in 0..20 {
        assert_eq!(
            strategy(&mut rng, RpsPlayer::Player3, &own, RpsPlayer::Player1, &opp),
            RpsChoice::Paper
        );
    }
}

#[test]
fn loss_exploiting_player_falls_back_without_losses() {
    let own = RpsPlayerRecord::new();
    let opp = RpsPlayerRecord::new();
    assert_eq!(
        strategy_for(RpsPlayer::Player3, &own, &opp, RpsChoice::Scissors, 0),
        RpsChoice::Scissors
    );
}

#[test]
fn cycling_player_answers_scissors_with_rock() {
    let mut own = RpsPlayerRecord::new();
    own.win(RpsChoice::Scissors);
    let mut opp = RpsPlayerRecord::new();
    opp.win(RpsChoice::Paper);
    opp.lose(RpsChoice::Rock);
    for fallback in [RpsChoice::Rock, RpsChoice::Paper, RpsChoice::Scissors] {
        assert_eq!(
            strategy_for(RpsPlayer::Player4, &own, &opp, fallback, 0),
            RpsChoice::Rock
        );
    }
    // Regardless of opponent state and of the random draws.
    let mut rng = rand::rng();
    for _ in 0..20 {
        assert_eq!(
            strategy(&mut rng, RpsPlayer::Player4, &own, RpsPlayer::Player2, &opp),
            RpsChoice::Rock
        );
    }
}

#[test]
fn cycling_player_upgrades_each_move() {
    let opp = RpsPlayerRecord::new();
    let mut own = RpsPlayerRecord::new();
    own.lose(RpsChoice::Rock);
    assert_eq!(
        strategy_for(RpsPlayer::Player4, &own, &opp, RpsChoice::Rock, 0),
        RpsChoice::Paper
    );
    own.lose(RpsChoice::Paper);
    assert_eq!(
        strategy_for(RpsPlayer::Player4, &own, &opp, RpsChoice::Rock, 0),
        RpsChoice::Scissors
    );
}

#[test]
fn mimic_player_copies_most_recent_winning_move() {
    let own = RpsPlayerRecord::new();
    let mut opp = RpsPlayerRecord::new();
    opp.win(RpsChoice::Rock);
    opp.win(RpsChoice::Scissors);
    opp.lose(RpsChoice::Paper);
    assert_eq!(
        strategy_for(RpsPlayer::Player5, &own, &opp, RpsChoice::Paper, 0),
        RpsChoice::Scissors
    );
}

#[test]
fn mimic_player_falls_back_when_opponent_never_won() {
    let own = RpsPlayerRecord::new();
    let mut opp = RpsPlayerRecord::new();
    opp.lose(RpsChoice::Rock);
    assert_eq!(
        strategy_for(RpsPlayer::Player5, &own, &opp, RpsChoice::Paper, 0),
        RpsChoice::Paper
    );
}
