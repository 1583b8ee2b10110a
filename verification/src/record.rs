//! Per-player accumulator of outcomes and move history, with the derived
//! queries that strategies read back mid-tournament.

use vstd::prelude::*;
use crate::game::RpsChoice;

verus! {

/// Number of occurrences of the move `c` in the sequence `s`.
pub open spec fn count_of(s: Seq<RpsChoice>, c: RpsChoice) -> nat
    decreases s.len(),
{
    if s.len() == 0 {
        0
    } else {
        count_of(s.drop_last(), c) + if s.last() == c {
            1nat
        } else {
            0nat
        }
    }
}

/// A sequence holds at most `s.len()` occurrences of any one move.
pub proof fn lemma_count_le_len(s: Seq<RpsChoice>, c: RpsChoice)
    ensures
        count_of(s, c) <= s.len(),
    decreases s.len(),
{
    if s.len() > 0 {
        lemma_count_le_len(s.drop_last(), c);
    }
}

/// The window that the most-common-losing-move query looks at: the most
/// recent hundred entries, or all of them when fewer exist.
pub open spec fn loss_window(s: Seq<RpsChoice>) -> Seq<RpsChoice> {
    if s.len() < 100 {
        s
    } else {
        s.subrange(s.len() - 100, s.len() as int)
    }
}

/// The move occurring most often in `s`, ties broken toward rock first and
/// paper second.
pub open spec fn most_common_in(s: Seq<RpsChoice>) -> RpsChoice {
    if count_of(s, RpsChoice::Rock) >= count_of(s, RpsChoice::Paper) && count_of(
        s,
        RpsChoice::Rock,
    ) >= count_of(s, RpsChoice::Scissors) {
        RpsChoice::Rock
    } else if count_of(s, RpsChoice::Paper) >= count_of(s, RpsChoice::Scissors) {
        RpsChoice::Paper
    } else {
        RpsChoice::Scissors
    }
}

/// Record of all matches for a player.
#[derive(Debug)]
pub struct RpsPlayerRecord {
    pub wins: usize,
    pub losses: usize,
    pub draws: usize,
    pub winning_choices: Vec<RpsChoice>,
    pub losing_choices: Vec<RpsChoice>,
    pub choices: Vec<RpsChoice>,
}

impl RpsPlayerRecord {
    /// The record's internal invariant: the win and loss counts equal the
    /// lengths of their move sequences, and the full move history holds
    /// exactly the winning and losing moves (draws append no move).
    pub open spec fn wf(self) -> bool {
        &&& self.wins == self.winning_choices@.len()
        &&& self.losses == self.losing_choices@.len()
        &&& self.choices@.len() == self.wins + self.losses
    }

    /// Total number of outcomes recorded so far.
    pub open spec fn total(self) -> int {
        self.wins + self.losses + self.draws
    }

    /// Creates a blank record.
    pub fn new() -> (r: Self)
        ensures
            r.wf(),
            r.wins == 0,
            r.losses == 0,
            r.draws == 0,
            r.winning_choices@ == Seq::<RpsChoice>::empty(),
            r.losing_choices@ == Seq::<RpsChoice>::empty(),
            r.choices@ == Seq::<RpsChoice>::empty(),
    {
        RpsPlayerRecord {
            wins: 0,
            losses: 0,
            draws: 0,
            winning_choices: Vec::new(),
            losing_choices: Vec::new(),
            choices: Vec::new(),
        }
    }

    /// Records a win: one more win, and the move joins the winning and total
    /// histories. Exactly one outcome is added, so the sum of the three
    /// counts grows by exactly one.
    pub fn win(&mut self, choice: RpsChoice)
        requires
            old(self).wf(),
        ensures
            final(self).wf(),
            final(self).wins == old(self).wins + 1,
            final(self).losses == old(self).losses,
            final(self).draws == old(self).draws,
            final(self).winning_choices@ == old(self).winning_choices@.push(choice),
            final(self).losing_choices@ == old(self).losing_choices@,
            final(self).choices@ == old(self).choices@.push(choice),
            final(self).total() == old(self).total() + 1,
    {
        self.winning_choices.push(choice);
        self.choices.push(choice);
        self.wins = self.winning_choices.len();
    }

    /// Records a loss: one more loss, and the move joins the losing and total
    /// histories. Exactly one outcome is added.
    pub fn lose(&mut self, choice: RpsChoice)
        requires
            old(self).wf(),
        ensures
            final(self).wf(),
            final(self).wins == old(self).wins,
            final(self).losses == old(self).losses + 1,
            final(self).draws == old(self).draws,
            final(self).winning_choices@ == old(self).winning_choices@,
            final(self).losing_choices@ == old(self).losing_choices@.push(choice),
            final(self).choices@ == old(self).choices@.push(choice),
            final(self).total() == old(self).total() + 1,
    {
        self.losing_choices.push(choice);
        self.choices.push(choice);
        self.losses = self.losing_choices.len();
    }

    /// Records a draw: only the draw count grows; no move is appended to any
    /// history. Exactly one outcome is added.
    pub fn draw(&mut self)
        requires
            old(self).draws < usize::MAX,
        ensures
            final(self).wins == old(self).wins,
            final(self).losses == old(self).losses,
            final(self).draws == old(self).draws + 1,
            final(self).winning_choices@ == old(self).winning_choices@,
            final(self).losing_choices@ == old(self).losing_choices@,
            final(self).choices@ == old(self).choices@,
            final(self).total() == old(self).total() + 1,
            old(self).wf() ==> final(self).wf(),
    {
        self.draws = self.draws + 1;
    }

    /// Returns the most recent choice or None if no choices.
    pub fn most_recent_choice(&self) -> (r: Option<RpsChoice>)
        ensures
            r == (if self.choices@.len() == 0 {
                None::<RpsChoice>
            } else {
                Some(self.choices@.last())
            }),
    {
        if self.choices.len() == 0 {
            None
        } else {
            Some(self.choices[self.choices.len() - 1])
        }
    }

    /// Returns the most recent successful move or None if there are no wins.
    pub fn most_recent_win(&self) -> (r: Option<RpsChoice>)
        ensures
            r == (if self.winning_choices@.len() == 0 {
                None::<RpsChoice>
            } else {
                Some(self.winning_choices@.last())
            }),
    {
        if self.winning_choices.len() == 0 {
            None
        } else {
            Some(self.winning_choices[self.winning_choices.len() - 1])
        }
    }

    /// Returns the most common choice that this player lost with, over the
    /// most recent hundred losses, or None if no losses.
    pub fn most_common_loss(&self) -> (r: Option<RpsChoice>)
        ensures
            r is None <==> self.losing_choices@.len() == 0,
            self.losing_choices@.len() > 0 ==> r == Some(
                most_common_in(loss_window(self.losing_choices@)),
            ),
    {
        let ghost s = self.losing_choices@;
        let len = self.losing_choices.len();
        if len == 0 {
            return None;
        }
        let start: usize = if len < 100 {
            0
        } else {
            len - 100
        };
        let mut rock_n: usize = 0;
        let mut paper_n: usize = 0;
        let mut sciss_n: usize = 0;
        let mut i: usize = start;
        proof {
            assert(s.subrange(start as int, start as int) =~= Seq::<RpsChoice>::empty());
        }
        while i < len
            invariant
                start <= i <= len,
                len == s.len(),
                s == self.losing_choices@,
                rock_n == count_of(s.subrange(start as int, i as int), RpsChoice::Rock),
                paper_n == count_of(s.subrange(start as int, i as int), RpsChoice::Paper),
                sciss_n == count_of(s.subrange(start as int, i as int), RpsChoice::Scissors),
            decreases len - i,
        {
            proof {
                assert(s.subrange(start as int, (i + 1) as int).drop_last() =~= s.subrange(
                    start as int,
                    i as int,
                ));
                assert(s.subrange(start as int, (i + 1) as int).last() == s[i as int]);
                lemma_count_le_len(s.subrange(start as int, i as int), RpsChoice::Rock);
                lemma_count_le_len(s.subrange(start as int, i as int), RpsChoice::Paper);
                lemma_count_le_len(s.subrange(start as int, i as int), RpsChoice::Scissors);
            }
            match self.losing_choices[i] {
                RpsChoice::Rock => {
                    rock_n = rock_n + 1;
                },
                RpsChoice::Paper => {
                    paper_n = paper_n + 1;
                },
                RpsChoice::Scissors => {
                    sciss_n = sciss_n + 1;
                },
            }
            i = i + 1;
        }
        proof {
            assert(s.subrange(start as int, len as int) =~= loss_window(s));
        }
        if rock_n >= paper_n && rock_n >= sciss_n {
            Some(RpsChoice::Rock)
        } else if paper_n >= sciss_n {
            Some(RpsChoice::Paper)
        } else {
            Some(RpsChoice::Scissors)
        }
    }
}

/// Counts how often the move `c` was played in the given history.
pub fn count_choice(l: &Vec<RpsChoice>, c: RpsChoice) -> (n: usize)
    ensures
        n == count_of(l@, c),
{
    let mut n: usize = 0;
    let mut i: usize = 0;
    proof {
        assert(l@.subrange(0, 0) =~= Seq::<RpsChoice>::empty());
    }
    while i < l.len()
        invariant
            i <= l@.len(),
            n == count_of(l@.subrange(0, i as int), c),
        decreases l@.len() - i,
    {
        proof {
            assert(l@.subrange(0, (i + 1) as int).drop_last() =~= l@.subrange(0, i as int));
            assert(l@.subrange(0, (i + 1) as int).last() == l@[i as int]);
            lemma_count_le_len(l@.subrange(0, i as int), c);
        }
        if l[i] == c {
            n = n + 1;
        }
        i = i + 1;
    }
    proof {
        assert(l@.subrange(0, l@.len() as int) =~= l@);
    }
    n
}

} // verus!
