use rps_sim::game::RpsChoice;
use rps_sim::record::{count_choice, RpsPlayerRecord};

#[test]
fn new_record_is_blank() {
    let r = RpsPlayerRecord::new();
    assert_eq!(r.wins, 0);
    assert_eq!(r.losses, 0);
    assert_eq!(r.draws, 0);
    assert!(r.winning_choices.is_empty());
    assert!(r.losing_choices.is_empty());
    assert!(r.choices.is_empty());
}

#[test]
fn counts_add_up_after_any_sequence_of_calls() {
    let mut r = RpsPlayerRecord::new();
    r.win(RpsChoice::Rock);
    r.lose(RpsChoice::Scissors);
    r.draw();
    r.win(RpsChoice::Paper);
    r.draw();
    r.lose(RpsChoice::Paper);
    r.win(RpsChoice::Rock);
    assert_eq!(r.wins + r.losses + r.draws, 7);
    assert_eq!(r.wins, r.winning_choices.len());
    assert_eq!(r.losses, r.losing_choices.len());
    assert_eq!(r.wins, 3);
    assert_eq!(r.losses, 2);
    assert_eq!(r.draws, 2);
}

#[test]
fn draws_append_no_move() {
    let mut r = RpsPlayerRecord::new();
    r.draw();
    r.draw();
    assert_eq!(r.most_recent_choice(), None);
    assert!(r.choices.is_empty());
    assert_eq!(r.draws, 2);
}

#[test]
fn most_recent_choice_tracks_wins_and_losses() {
    let mut r = RpsPlayerRecord::new();
    assert_eq!(r.most_recent_choice(), None);
    r.win(RpsChoice::Rock);
    assert_eq!(r.most_recent_choice(), Some(RpsChoice::Rock));
    r.lose(RpsChoice::Scissors);
    assert_eq!(r.most_recent_choice(), Some(RpsChoice::Scissors));
    r.draw();
    assert_eq!(r.most_recent_choice(), Some(RpsChoice::Scissors));
}

#[test]
fn most_recent_win_ignores_losses() {
    let mut r = RpsPlayerRecord::new();
    assert_eq!(r.most_recent_win(), None);
    r.lose(RpsChoice::Paper);
    assert_eq!(r.most_recent_win(), None);
    r.win(RpsChoice::Scissors);
    r.lose(RpsChoice::Rock);
    assert_eq!(r.most_recent_win(), Some(RpsChoice::Scissors));
}

#[test]
fn most_common_loss_counts_beat_ties() {
    let mut r = RpsPlayerRecord::new();
    r.lose(RpsChoice::Rock);
    r.lose(RpsChoice::Rock);
    r.lose(RpsChoice::Paper);
    assert_eq!(r.most_common_loss(), Some(RpsChoice::Rock));
}

#[test]
fn most_common_loss_breaks_ties_toward_lowest_ordinal() {
    let mut r = RpsPlayerRecord::new();
    r.lose(RpsChoice::Rock);
    r.lose(RpsChoice::Paper);
    assert_eq!(r.most_common_loss(), Some(RpsChoice::Rock));

    let mut r2 = RpsPlayerRecord::new();
    r2.lose(RpsChoice::Scissors);
    r2.lose(RpsChoice::Paper);
    assert_eq!(r2.most_common_loss(), Some(RpsChoice::Paper));
}

#[test]
fn most_common_loss_on_blank_record_is_none() {
    let r = RpsPlayerRecord::new();
    assert_eq!(r.most_common_loss(), None);
}

#[test]
fn most_common_loss_looks_at_the_last_hundred_only() {
    let mut r = RpsPlayerRecord::new();
    for _ in 0..100 {
        r.lose(RpsChoice::Rock);
    }
    for _ in 0..100 {
        r.lose(RpsChoice::Scissors);
    }
    // Overall the counts tie, which would break toward rock; the window
    // holds only the hundred most recent losses, all scissors.
    assert_eq!(r.most_common_loss(), Some(RpsChoice::Scissors));
}

#[test]
fn most_common_loss_window_boundary_at_exactly_hundred() {
    let mut r = RpsPlayerRecord::new();
    r.lose(RpsChoice::Paper);
    for _ in 0..99 {
        r.lose(RpsChoice::Scissors);
    }
    assert_eq!(r.losses, 100);
    assert_eq!(r.most_common_loss(), Some(RpsChoice::Scissors));
}

#[test]
fn count_choice_counts_each_variant() {
    let l = vec![
        RpsChoice::Rock,
        RpsChoice::Paper,
        RpsChoice::Rock,
        RpsChoice::Scissors,
        RpsChoice::Rock,
    ];
    assert_eq!(count_choice(&l, RpsChoice::Rock), 3);
    assert_eq!(count_choice(&l, RpsChoice::Paper), 1);
    assert_eq!(count_choice(&l, RpsChoice::Scissors), 1);
    assert_eq!(count_choice(&Vec::new(), RpsChoice::Rock), 0);
}
