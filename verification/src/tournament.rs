//! The tournament loop: samples pairs of distinct players, lets each
//! strategy choose a move, resolves the match, and updates both records.

use vstd::prelude::*;
use crate::game::{outcome_of, RpsChoice, RpsMatch, RpsOutcome, RpsPlayer, RpsWinner};
use crate::record::RpsPlayerRecord;
use crate::rng::random_below;
use crate::strategy::strategy;

verus! {

/// How a record changes when a win is recorded with move `c`.
pub open spec fn win_step(o: RpsPlayerRecord, n: RpsPlayerRecord, c: RpsChoice) -> bool {
    &&& n.wins == o.wins + 1
    &&& n.losses == o.losses
    &&& n.draws == o.draws
    &&& n.winning_choices@ == o.winning_choices@.push(c)
    &&& n.losing_choices@ == o.losing_choices@
    &&& n.choices@ == o.choices@.push(c)
}

/// How a record changes when a loss is recorded with move `c`.
pub open spec fn lose_step(o: RpsPlayerRecord, n: RpsPlayerRecord, c: RpsChoice) -> bool {
    &&& n.wins == o.wins
    &&& n.losses == o.losses + 1
    &&& n.draws == o.draws
    &&& n.winning_choices@ == o.winning_choices@
    &&& n.losing_choices@ == o.losing_choices@.push(c)
    &&& n.choices@ == o.choices@.push(c)
}

/// How a record changes when a draw is recorded: no move is appended.
pub open spec fn draw_step(o: RpsPlayerRecord, n: RpsPlayerRecord) -> bool {
    &&& n.wins == o.wins
    &&& n.losses == o.losses
    &&& n.draws == o.draws + 1
    &&& n.winning_choices@ == o.winning_choices@
    &&& n.losing_choices@ == o.losing_choices@
    &&& n.choices@ == o.choices@
}

/// The five per-player records, indexed by player identity.
#[derive(Debug)]
pub struct RpsRecords {
    pub player_1: RpsPlayerRecord,
    pub player_2: RpsPlayerRecord,
    pub player_3: RpsPlayerRecord,
    pub player_4: RpsPlayerRecord,
    pub player_5: RpsPlayerRecord,
}

impl RpsRecords {
    /// The record belonging to player `p`.
    pub open spec fn record_of(self, p: RpsPlayer) -> RpsPlayerRecord {
        match p {
            RpsPlayer::Player1 => self.player_1,
            RpsPlayer::Player2 => self.player_2,
            RpsPlayer::Player3 => self.player_3,
            RpsPlayer::Player4 => self.player_4,
            RpsPlayer::Player5 => self.player_5,
        }
    }

    /// All five records satisfy the record invariant.
    pub open spec fn wf(self) -> bool {
        &&& self.player_1.wf()
        &&& self.player_2.wf()
        &&& self.player_3.wf()
        &&& self.player_4.wf()
        &&& self.player_5.wf()
    }

    /// Sum over all five players of wins plus losses plus draws.
    pub open spec fn total_sum(self) -> int {
        self.player_1.total() + self.player_2.total() + self.player_3.total()
            + self.player_4.total() + self.player_5.total()
    }

    /// Five blank records.
    pub fn new() -> (r: Self)
        ensures
            r.wf(),
            r.total_sum() == 0,
            forall|p: RpsPlayer| #[trigger] r.record_of(p).total() == 0,
            forall|p: RpsPlayer| (#[trigger] r.record_of(p)).wins == 0,
            forall|p: RpsPlayer| (#[trigger] r.record_of(p)).losses == 0,
            forall|p: RpsPlayer| (#[trigger] r.record_of(p)).draws == 0,
            forall|p: RpsPlayer| (#[trigger] r.record_of(p)).winning_choices@ == Seq::<
                RpsChoice,
            >::empty(),
            forall|p: RpsPlayer| (#[trigger] r.record_of(p)).losing_choices@ == Seq::<
                RpsChoice,
            >::empty(),
            forall|p: RpsPlayer| (#[trigger] r.record_of(p)).choices@ == Seq::<
                RpsChoice,
            >::empty(),
    {
        RpsRecords {
            player_1: RpsPlayerRecord::new(),
            player_2: RpsPlayerRecord::new(),
            player_3: RpsPlayerRecord::new(),
            player_4: RpsPlayerRecord::new(),
            player_5: RpsPlayerRecord::new(),
        }
    }

    /// Read access to the record of player `p`.
    pub fn record_for(&self, p: RpsPlayer) -> (r: &RpsPlayerRecord)
        ensures
            *r == self.record_of(p),
    {
        match p {
            RpsPlayer::Player1 => &self.player_1,
            RpsPlayer::Player2 => &self.player_2,
            RpsPlayer::Player3 => &self.player_3,
            RpsPlayer::Player4 => &self.player_4,
            RpsPlayer::Player5 => &self.player_5,
        }
    }

    /// Records a win for player `p` with move `c`; no other record changes.
    fn record_win(&mut self, p: RpsPlayer, c: RpsChoice)
        requires
            old(self).record_of(p).wf(),
        ensures
            win_step(old(self).record_of(p), final(self).record_of(p), c),
            final(self).record_of(p).wf(),
            forall|q: RpsPlayer| q != p ==> final(self).record_of(q) == old(self).record_of(q),
            final(self).total_sum() == old(self).total_sum() + 1,
    {
        match p {
            RpsPlayer::Player1 => self.player_1.win(c),
            RpsPlayer::Player2 => self.player_2.win(c),
            RpsPlayer::Player3 => self.player_3.win(c),
            RpsPlayer::Player4 => self.player_4.win(c),
            RpsPlayer::Player5 => self.player_5.win(c),
        }
    }

    /// Records a loss for player `p` with move `c`; no other record changes.
    fn record_lose(&mut self, p: RpsPlayer, c: RpsChoice)
        requires
            old(self).record_of(p).wf(),
        ensures
            lose_step(old(self).record_of(p), final(self).record_of(p), c),
            final(self).record_of(p).wf(),
            forall|q: RpsPlayer| q != p ==> final(self).record_of(q) == old(self).record_of(q),
            final(self).total_sum() == old(self).total_sum() + 1,
    {
        match p {
            RpsPlayer::Player1 => self.player_1.lose(c),
            RpsPlayer::Player2 => self.player_2.lose(c),
            RpsPlayer::Player3 => self.player_3.lose(c),
            RpsPlayer::Player4 => self.player_4.lose(c),
            RpsPlayer::Player5 => self.player_5.lose(c),
        }
    }

    /// Records a draw for player `p`; no other record changes.
    fn record_draw(&mut self, p: RpsPlayer)
        requires
            old(self).record_of(p).draws < usize::MAX,
        ensures
            draw_step(old(self).record_of(p), final(self).record_of(p)),
            old(self).record_of(p).wf() ==> final(self).record_of(p).wf(),
            forall|q: RpsPlayer| q != p ==> final(self).record_of(q) == old(self).record_of(q),
            final(self).total_sum() == old(self).total_sum() + 1,
    {
        match p {
            RpsPlayer::Player1 => self.player_1.draw(),
            RpsPlayer::Player2 => self.player_2.draw(),
            RpsPlayer::Player3 => self.player_3.draw(),
            RpsPlayer::Player4 => self.player_4.draw(),
            RpsPlayer::Player5 => self.player_5.draw(),
        }
    }
}

/// Removes and returns a uniformly random element of a non-empty list:
/// sampling a player without replacement.
pub(crate) fn pop_random_element(rng: &mut rand::rngs::ThreadRng, list: &mut Vec<RpsPlayer>) -> (p:
    RpsPlayer)
    requires
        old(list)@.len() > 0,
    ensures
        old(list)@.contains(p),
        final(list)@.len() == old(list)@.len() - 1,
        exists|j: int|
            0 <= j < old(list)@.len() && p == old(list)@[j] && final(list)@ == old(list)@.remove(j),
        old(list)@.no_duplicates() ==> !final(list)@.contains(p) && final(list)@.no_duplicates(),
{
    let idx = random_below(rng, list.len());
    let p = list.remove(idx);
    proof {
        let s = old(list)@;
        let j = idx as int;
        assert(s[j] == p);
        assert(list@ == s.remove(j));
        if s.no_duplicates() {
            assert forall|k: int| 0 <= k < list@.len() implies list@[k] != p by {
                if k < j {
                    assert(list@[k] == s[k]);
                } else {
                    assert(list@[k] == s[k + 1]);
                }
            }
            assert(!list@.contains(p));
            assert forall|k1: int, k2: int|
                0 <= k1 < list@.len() && 0 <= k2 < list@.len() && k1 != k2 implies list@[k1]
                != list@[k2] by {
                let a1: int = if k1 < j {
                    k1
                } else {
                    k1 + 1
                };
                let a2: int = if k2 < j {
                    k2
                } else {
                    k2 + 1
                };
                assert(list@[k1] == s[a1]);
                assert(list@[k2] == s[a2]);
            }
        }
    }
    p
}

/// Plays out one already-chosen round: player `p1` has played `c1` against
/// player `p2`'s `c2`. Resolves the outcome, updates exactly the two
/// participants' records (winner's win and loser's loss with the moves they
/// played, or both draws), and appends the match to the history.
pub fn play_round(
    records: &mut RpsRecords,
    history: &mut Vec<RpsMatch>,
    p1: RpsPlayer,
    p2: RpsPlayer,
    c1: RpsChoice,
    c2: RpsChoice,
)
    requires
        p1 != p2,
        old(records).record_of(p1).wf(),
        old(records).record_of(p2).wf(),
        old(records).record_of(p1).draws < usize::MAX,
        old(records).record_of(p2).draws < usize::MAX,
    ensures
        final(history)@ == old(history)@.push(
            RpsMatch { player_1: p1, player_2: p2, player_1_choice: c1, player_2_choice: c2 },
        ),
        forall|q: RpsPlayer|
            q != p1 && q != p2 ==> final(records).record_of(q) == old(records).record_of(q),
        final(records).record_of(p1).wf(),
        final(records).record_of(p2).wf(),
        final(records).total_sum() == old(records).total_sum() + 2,
        final(records).record_of(p1).total() == old(records).record_of(p1).total() + 1,
        final(records).record_of(p2).total() == old(records).record_of(p2).total() + 1,
        outcome_of(c1, c2) == RpsOutcome::FirstWins ==> win_step(
            old(records).record_of(p1),
            final(records).record_of(p1),
            c1,
        ) && lose_step(old(records).record_of(p2), final(records).record_of(p2), c2),
        outcome_of(c1, c2) == RpsOutcome::SecondWins ==> lose_step(
            old(records).record_of(p1),
            final(records).record_of(p1),
            c1,
        ) && win_step(old(records).record_of(p2), final(records).record_of(p2), c2),
        outcome_of(c1, c2) == RpsOutcome::Tied ==> draw_step(
            old(records).record_of(p1),
            final(records).record_of(p1),
        ) && draw_step(old(records).record_of(p2), final(records).record_of(p2)),
{
    let rps_match = RpsMatch::new(p1, p2, c1, c2);
    match rps_match.winner() {
        RpsWinner::Player(p) => {
            if p == p1 {
                records.record_win(p1, c1);
                records.record_lose(p2, c2);
            } else {
                records.record_win(p2, c2);
                records.record_lose(p1, c1);
            }
        },
        RpsWinner::Draw => {
            records.record_draw(p1);
            records.record_draw(p2);
        },
    }
    history.push(rps_match);
}

/// The five players, each exactly once, in identity order.
pub fn all_players() -> (v: Vec<RpsPlayer>)
    ensures
        v@ == seq![
            RpsPlayer::Player1,
            RpsPlayer::Player2,
            RpsPlayer::Player3,
            RpsPlayer::Player4,
            RpsPlayer::Player5,
        ],
        v@.no_duplicates(),
        v@.len() == 5,
{
    let mut v: Vec<RpsPlayer> = Vec::new();
    v.push(RpsPlayer::Player1);
    v.push(RpsPlayer::Player2);
    v.push(RpsPlayer::Player3);
    v.push(RpsPlayer::Player4);
    v.push(RpsPlayer::Player5);
    proof {
        assert(v@ =~= seq![
            RpsPlayer::Player1,
            RpsPlayer::Player2,
            RpsPlayer::Player3,
            RpsPlayer::Player4,
            RpsPlayer::Player5,
        ]);
    }
    v
}

/// Runs `rounds` one-round matches between randomly sampled pairs of distinct
/// players. Each round both chosen strategies read the records as they stood
/// before the round, the outcome is resolved, exactly the two participants'
/// records are updated, and the match joins the history. Hence the history
/// holds exactly one entry per round, and every round adds exactly two unit
/// outcomes across the five records: two draws, or one win and one loss.
pub fn run_tournament(rounds: usize, rng: &mut rand::rngs::ThreadRng) -> (r: (
    RpsRecords,
    Vec<RpsMatch>,
))
    ensures
        r.0.wf(),
        r.1@.len() == rounds,
        r.0.total_sum() == 2 * rounds,
        forall|p: RpsPlayer| r.0.record_of(p).total() <= rounds,
        forall|k: int| 0 <= k < rounds ==> (#[trigger] r.1@[k]).player_1 != r.1@[k].player_2,
{
    let mut records = RpsRecords::new();
    let mut history: Vec<RpsMatch> = Vec::new();
    let mut i: usize = 0;
    while i < rounds
        invariant
            i <= rounds,
            records.wf(),
            history@.len() == i,
            records.total_sum() == 2 * i,
            forall|p: RpsPlayer| records.record_of(p).total() <= i,
            forall|k: int|
                0 <= k < i ==> (#[trigger] history@[k]).player_1 != history@[k].player_2,
        decreases rounds - i,
    {
        let mut players = all_players();
        let p1 = pop_random_element(rng, &mut players);
        let p2 = pop_random_element(rng, &mut players);
        let c1 = strategy(rng, p1, records.record_for(p1), p2, records.record_for(p2));
        let c2 = strategy(rng, p2, records.record_for(p2), p1, records.record_for(p1));
        play_round(&mut records, &mut history, p1, p2, c1, c2);
        proof {
            assert(records.record_of(RpsPlayer::Player1).wf());
            assert(records.record_of(RpsPlayer::Player2).wf());
            assert(records.record_of(RpsPlayer::Player3).wf());
            assert(records.record_of(RpsPlayer::Player4).wf());
            assert(records.record_of(RpsPlayer::Player5).wf());
        }
        i = i + 1;
    }
    (records, history)
}

} // verus!
