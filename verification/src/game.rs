//! Round bookkeeping: players, targets, damage and penalties.
//!
//! A game holds two players. Each round both players earn an average score;
//! the higher score wins the round, the difference is taken from the loser's
//! vitality, and the winner picks one penalty for a surviving loser: five
//! points off the loser's speed or five off their strength. A loser whose
//! speed reaches zero ends the game on the spot.

use vstd::prelude::*;
use crate::error::GameResult;
use crate::player::{sub_to_zero, Player};

verus! {

/// Represents the game state: two players, the number of targets drawn per
/// turn, and whether (and by whom) the game has already been decided.
pub struct Game {
    player1: Player,
    player2: Player,
    target_count: usize,
    game_over: bool,
    winner_idx: Option<usize>,
}

/// The penalty choice applied to a surviving loser, as the winner picked it:
/// an out-of-range pick falls back to the first option.
pub open spec fn resolved_choice(choice: Option<usize>) -> usize {
    match choice {
        Some(c) => if c < 2 {
            c
        } else {
            0
        },
        None => 0,
    }
}

/// How one player's attributes change when they lose a round: vitality drops
/// by the score difference (stopping at zero), and — only if they survive —
/// the chosen penalty takes five points of speed or strength.
pub open spec fn spec_lost_round(before: Player, after: Player, diff: u32, choice: usize) -> bool {
    let survives = sub_to_zero(before.spec_vitality(), diff) > 0;
    &&& after.spec_name() == before.spec_name()
    &&& after.spec_vitality() == sub_to_zero(before.spec_vitality(), diff)
    &&& after.spec_speed() == if survives && choice == 0 {
        sub_to_zero(before.spec_speed(), 5)
    } else {
        before.spec_speed()
    }
    &&& after.spec_strength() == if survives && choice != 0 {
        sub_to_zero(before.spec_strength(), 5)
    } else {
        before.spec_strength()
    }
}

/// How the whole game state changes when the player at `winner` beats the
/// player at `loser` by `diff` points: the winner is untouched, the loser
/// takes the damage and (if surviving) the penalty, and the game ends with
/// the winner on record exactly when the penalty drove the loser's speed to
/// zero.
pub open spec fn spec_round_won(
    before: Game,
    after: Game,
    winner: int,
    loser: int,
    diff: u32,
    choice: usize,
) -> bool {
    let lb = before.spec_player(loser);
    let speed_ran_out = sub_to_zero(lb.spec_vitality(), diff) > 0 && choice == 0 && sub_to_zero(
        lb.spec_speed(),
        5,
    ) == 0;
    &&& after.spec_player(winner) == before.spec_player(winner)
    &&& spec_lost_round(lb, after.spec_player(loser), diff, choice)
    &&& after.spec_target_count() == before.spec_target_count()
    &&& after.spec_game_over() == (before.spec_game_over() || speed_ran_out)
    &&& after.spec_winner_idx() == if speed_ran_out {
        Some(winner as usize)
    } else {
        before.spec_winner_idx()
    }
}

impl Game {
    /// The player at the given index: 0 for the first player, 1 for the
    /// second.
    pub closed spec fn spec_player(self, idx: int) -> Player {
        if idx == 0 {
            self.player1
        } else {
            self.player2
        }
    }

    /// The number of targets drawn for each turn.
    pub closed spec fn spec_target_count(self) -> usize {
        self.target_count
    }

    /// Whether the game has been decided by a speed running out.
    pub closed spec fn spec_game_over(self) -> bool {
        self.game_over
    }

    /// The recorded winner, if the game was decided by a speed running out.
    pub closed spec fn spec_winner_idx(self) -> Option<usize> {
        self.winner_idx
    }

    /// Well-formedness: a recorded winner is one of the two players.
    pub open spec fn wf(self) -> bool {
        self.spec_winner_idx() matches Some(i) ==> i < 2
    }

    /// Creates a new game: both players share the given starting attributes,
    /// nobody has won, and the game is not over.
    pub fn new(
        player1_name: String,
        player2_name: String,
        vitality: u32,
        speed: u32,
        strength: u32,
        target_count: usize,
    ) -> (r: Self)
        ensures
            r.spec_player(0).spec_name() == player1_name@,
            r.spec_player(1).spec_name() == player2_name@,
            forall|i: int|
                0 <= i < 2 ==> {
                    &&& (#[trigger] r.spec_player(i)).spec_vitality() == vitality
                    &&& r.spec_player(i).spec_speed() == speed
                    &&& r.spec_player(i).spec_strength() == strength
                },
            r.spec_target_count() == target_count,
            !r.spec_game_over(),
            r.spec_winner_idx() is None,
            r.wf(),
    {
        Self {
            player1: Player::new(player1_name, vitality, speed, strength),
            player2: Player::new(player2_name, vitality, speed, strength),
            target_count,
            game_over: false,
            winner_idx: None,
        }
    }

    /// The player at the given index.
    pub fn player(&self, idx: usize) -> (r: &Player)
        requires
            idx < 2,
        ensures
            *r == self.spec_player(idx as int),
    {
        if idx == 0 {
            &self.player1
        } else {
            &self.player2
        }
    }

    /// Whether the game is finished: a player is out of vitality, or a
    /// penalty has already decided it.
    pub fn is_finished(&self) -> (r: bool)
        ensures
            r == (self.spec_player(0).spec_vitality() == 0 || self.spec_player(
                1,
            ).spec_vitality() == 0 || self.spec_game_over()),
    {
        self.player1.vitality() == 0 || self.player2.vitality() == 0 || self.game_over
    }

    /// The index of the winning player: the recorded winner where a speed ran
    /// out, otherwise whoever still has vitality.
    pub open spec fn spec_winner(self) -> int {
        match self.spec_winner_idx() {
            Some(i) => i as int,
            None => if self.spec_player(0).spec_vitality() > 0 {
                0
            } else {
                1
            },
        }
    }

    /// The name of the winning player.
    pub fn winner_name(&self) -> (r: &str)
        requires
            self.wf(),
        ensures
            r@ == self.spec_player(self.spec_winner()).spec_name(),
    {
        match self.winner_idx {
            Some(idx) => if idx == 0 {
                self.player1.name()
            } else {
                self.player2.name()
            },
            None => if self.player1.vitality() > 0 {
                self.player1.name()
            } else {
                self.player2.name()
            },
        }
    }

    /// Draws the random targets for one turn: one value on the dial of
    /// 0..=100 for each configured target.
    pub fn generate_targets(&self) -> (r: Vec<u32>)
        ensures
            r@.len() == self.spec_target_count(),
            forall|i: int| 0 <= i < r@.len() ==> #[trigger] r@[i] <= 100,
    {
        let mut targets: Vec<u32> = Vec::new();
        let mut i: usize = 0;
        while i < self.target_count
            invariant
                0 <= i <= self.spec_target_count(),
                targets@.len() == i,
                forall|j: int| 0 <= j < targets@.len() ==> #[trigger] targets@[j] <= 100,
            decreases self.spec_target_count() - i,
        {
            targets.push(draw_in_range(0, 100));
            i = i + 1;
        }
        targets
    }

    /// Processes the result of a round: the higher average score wins, the
    /// loser's vitality drops by the difference, and a surviving loser takes
    /// the penalty the winner chose. A draw changes nothing.
    ///
    /// The winner's penalty pick must accompany the call whenever a penalty
    /// is due — that is, whenever the scores differ and the loser survives
    /// the damage.
    pub fn process_round_result(
        &mut self,
        p1_score: u32,
        p2_score: u32,
        test_choice: Option<usize>,
    ) -> (r: GameResult<()>)
        requires
            p1_score > p2_score && sub_to_zero(
                old(self).spec_player(1).spec_vitality(),
                (p1_score - p2_score) as u32,
            ) > 0 ==> test_choice is Some,
            p2_score > p1_score && sub_to_zero(
                old(self).spec_player(0).spec_vitality(),
                (p2_score - p1_score) as u32,
            ) > 0 ==> test_choice is Some,
        ensures
            r is Ok,
            p1_score == p2_score ==> *final(self) == *old(self),
            p1_score > p2_score ==> spec_round_won(
                *old(self),
                *final(self),
                0,
                1,
                (p1_score - p2_score) as u32,
                resolved_choice(test_choice),
            ),
            p2_score > p1_score ==> spec_round_won(
                *old(self),
                *final(self),
                1,
                0,
                (p2_score - p1_score) as u32,
                resolved_choice(test_choice),
            ),
            old(self).wf() ==> final(self).wf(),
    {
        if p1_score > p2_score {
            let diff = p1_score - p2_score;
            self.player2.decrease_vitality(diff);
            if self.player2.vitality() > 0 {
                let choice = match test_choice {
                    Some(c) => if c < 2 {
                        c
                    } else {
                        0
                    },
                    None => 0,
                };
                return self.apply_penalty(0, 1, choice);
            }
        } else if p2_score > p1_score {
            let diff = p2_score - p1_score;
            self.player1.decrease_vitality(diff);
            if self.player1.vitality() > 0 {
                let choice = match test_choice {
                    Some(c) => if c < 2 {
                        c
                    } else {
                        0
                    },
                    None => 0,
                };
                return self.apply_penalty(1, 0, choice);
            }
        }
        Ok(())
    }

    /// Applies the winner's chosen penalty to the loser: choice 0 takes five
    /// points of speed — and ends the game with the winner on record if the
    /// loser's speed reaches zero — while choice 1 takes five points of
    /// strength.
    pub fn apply_penalty(&mut self, winner_idx: usize, loser_idx: usize, choice: usize) -> (r:
        GameResult<()>)
        requires
            winner_idx < 2,
            loser_idx < 2,
            winner_idx != loser_idx,
            choice < 2,
        ensures
            r is Ok,
            final(self).spec_player(winner_idx as int) == old(self).spec_player(winner_idx as int),
            final(self).spec_target_count() == old(self).spec_target_count(),
            spec_penalized(
                old(self).spec_player(loser_idx as int),
                final(self).spec_player(loser_idx as int),
                choice,
            ),
            final(self).spec_game_over() == (old(self).spec_game_over() || (choice == 0
                && sub_to_zero(old(self).spec_player(loser_idx as int).spec_speed(), 5) == 0)),
            final(self).spec_winner_idx() == if choice == 0 && sub_to_zero(
                old(self).spec_player(loser_idx as int).spec_speed(),
                5,
            ) == 0 {
                Some(winner_idx)
            } else {
                old(self).spec_winner_idx()
            },
            old(self).wf() ==> final(self).wf(),
    {
        if choice == 0 {
            let speed_left = if loser_idx == 0 {
                self.player1.decrease_speed(5);
                self.player1.speed()
            } else {
                self.player2.decrease_speed(5);
                self.player2.speed()
            };
            if speed_left == 0 {
                self.game_over = true;
                self.winner_idx = Some(winner_idx);
            }
        } else {
            if loser_idx == 0 {
                self.player1.decrease_strength(5);
            } else {
                self.player2.decrease_strength(5);
            }
        }
        Ok(())
    }
}

/// How a penalty alone changes the loser: choice 0 takes five points of
/// speed, any other choice five points of strength; everything else stays.
pub open spec fn spec_penalized(before: Player, after: Player, choice: usize) -> bool {
    &&& after.spec_name() == before.spec_name()
    &&& after.spec_vitality() == before.spec_vitality()
    &&& after.spec_speed() == if choice == 0 {
        sub_to_zero(before.spec_speed(), 5)
    } else {
        before.spec_speed()
    }
    &&& after.spec_strength() == if choice == 0 {
        before.spec_strength()
    } else {
        sub_to_zero(before.spec_strength(), 5)
    }
}

/// Relies on `rand::random_range` over the inclusive range `lo..=hi`: the
/// draw lies within the bounds, and the range is non-empty since `lo <= hi`.
#[verifier::external_body]
fn draw_in_range(lo: u32, hi: u32) -> (r: u32)
    requires
        lo <= hi,
    ensures
        lo <= r <= hi,
{
    rand::random_range(lo..=hi)
}

} // verus!

