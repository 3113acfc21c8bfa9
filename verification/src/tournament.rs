//! The tally of a series of games between two engines.
//!
//! The tally keeps no file: for every game it hands back the line that
//! belongs in the log, and the caller writes it where it wants.

use crate::text::{decimal, push_decimal};
use vstd::prelude::*;

verus! {

/// How a game between the two engines ended, as far as the tally counts it.
#[derive(Clone, Copy, Debug, PartialEq, Eq, Structural)]
pub enum GameResult {
    Engine1Wins,
    Engine2Wins,
    Draw,
    /// Anything else: the game is counted as played and for nobody.
    Other,
}

/// The result that the text `result` names.
pub open spec fn result_of(result: Seq<char>) -> GameResult {
    if result == "Engine 1 wins"@ {
        GameResult::Engine1Wins
    } else if result == "Engine 2 wins"@ {
        GameResult::Engine2Wins
    } else if result == "Draw"@ {
        GameResult::Draw
    } else {
        GameResult::Other
    }
}

/// The log line of game number `number` that ended with `result`.
pub open spec fn log_text(number: nat, result: Seq<char>) -> Seq<char> {
    "Game "@ + decimal(number) + ": "@ + result + "\n"@
}

/// Games to play, games played, and who won how many.
#[derive(Clone, Copy, Debug, PartialEq, Eq, Structural)]
pub struct Tournament {
    games_to_play: usize,
    games_played: usize,
    engine1_wins: usize,
    engine2_wins: usize,
    draws: usize,
}

/// A `Tournament` as contracts see it.
pub struct TournamentView {
    pub games_to_play: nat,
    pub games_played: nat,
    pub engine1_wins: nat,
    pub engine2_wins: nat,
    pub draws: nat,
}

impl TournamentView {
    /// The tally after one more game that ended with `result`.
    pub open spec fn logged(self, result: GameResult) -> TournamentView {
        TournamentView {
            games_to_play: self.games_to_play,
            games_played: self.games_played + 1,
            engine1_wins: self.engine1_wins + if result == GameResult::Engine1Wins {
                1nat
            } else {
                0nat
            },
            engine2_wins: self.engine2_wins + if result == GameResult::Engine2Wins {
                1nat
            } else {
                0nat
            },
            draws: self.draws + if result == GameResult::Draw {
                1nat
            } else {
                0nat
            },
        }
    }
}

impl View for Tournament {
    type V = TournamentView;

    closed spec fn view(&self) -> TournamentView {
        TournamentView {
            games_to_play: self.games_to_play as nat,
            games_played: self.games_played as nat,
            engine1_wins: self.engine1_wins as nat,
            engine2_wins: self.engine2_wins as nat,
            draws: self.draws as nat,
        }
    }
}

impl Tournament {
    /// No more games are counted for the engines and as draws than were played.
    #[verifier::type_invariant]
    spec fn counts_fit(&self) -> bool {
        self.engine1_wins + self.engine2_wins + self.draws <= self.games_played
    }

    /// A tournament of `games_to_play` games, none played yet.
    pub fn new(games_to_play: usize) -> (tournament: Tournament)
        ensures
            tournament@ == (TournamentView {
                games_to_play: games_to_play as nat,
                games_played: 0,
                engine1_wins: 0,
                engine2_wins: 0,
                draws: 0,
            }),
    {
        Tournament { games_to_play, games_played: 0, engine1_wins: 0, engine2_wins: 0, draws: 0 }
    }

    /// Whether one more game can be counted.
    pub fn can_log(&self) -> (room: bool)
        ensures
            room == (self@.games_played < usize::MAX),
    {
        self.games_played < usize::MAX
    }

    /// How many games were played so far.
    pub fn games_played(&self) -> (n: usize)
        ensures
            n == self@.games_played,
    {
        self.games_played
    }

    /// How many games the first engine, the second engine and nobody won.
    pub fn score(&self) -> (counts: (usize, usize, usize))
        ensures
            counts.0 == self@.engine1_wins,
            counts.1 == self@.engine2_wins,
            counts.2 == self@.draws,
    {
        (self.engine1_wins, self.engine2_wins, self.draws)
    }

    /// Counts one game that ended with `result`, and hands back its log line.
    pub fn log_result(&mut self, result: &str) -> (line: String)
        requires
            old(self)@.games_played < usize::MAX,
        ensures
            final(self)@ == old(self)@.logged(result_of(result@)),
            line@ == log_text(final(self)@.games_played, result@),
    {
        proof {
            use_type_invariant(&*self);
        }
        self.games_played += 1;
        if str_equals(result, "Engine 1 wins") {
            self.engine1_wins += 1;
        } else if str_equals(result, "Engine 2 wins") {
            self.engine2_wins += 1;
        } else if str_equals(result, "Draw") {
            self.draws += 1;
        }
        let mut line = String::from_str("Game ");
        push_decimal(&mut line, self.games_played as u128);
        line.append(": ");
        line.append(result);
        line.append("\n");
        line
    }

    /// Whether all the games of the tournament were played.
    pub fn tournament_over(&self) -> (over: bool)
        ensures
            over == (self@.games_played >= self@.games_to_play),
    {
        self.games_played >= self.games_to_play
    }
}

/// Whether two texts are the same.
fn str_equals(a: &str, b: &str) -> (same: bool)
    ensures
        same == (a@ == b@),
{
    let left = crate::text::chars_of(a);
    let right = crate::text::chars_of(b);
    assert(left@.subrange(0, left@.len() as int) =~= left@);
    crate::text::range_equals(left.as_slice(), 0, left.len(), right.as_slice())
}

} // verus!
