//! Remaining-time tracking for the two sides of a game.
//!
//! The clock has no notion of the board: whoever ticks it says which side is
//! to move. Timestamps are milliseconds on a monotonic scale of the caller's
//! choosing; only differences between them matter.

use crate::text::{decimal, digit_char, digit_str, push_decimal};
use vstd::prelude::*;

verus! {

/// The side whose turn it is to move.
#[derive(Clone, Copy, Debug, PartialEq, Eq, Structural)]
pub enum Side {
    White,
    Black,
}

/// Time each side starts with: five minutes, in milliseconds.
pub const INITIAL_TIME_MS: u128 = 300000;

/// Remaining thinking time of both sides, and the moment of the last tick.
#[derive(Clone, Copy, Debug, PartialEq, Eq, Structural)]
pub struct Clock {
    pub wtime: u128,
    pub btime: u128,
    pub last_tick: u128,
}

/// Milliseconds that passed from `earlier` to `now`; zero if `now` is not later.
pub open spec fn elapsed_between(earlier: u128, now: u128) -> nat {
    if now > earlier {
        (now - earlier) as nat
    } else {
        0
    }
}

/// What is left of `remaining` after `elapsed` milliseconds: never below zero.
pub open spec fn drained(remaining: u128, elapsed: nat) -> u128 {
    if elapsed >= remaining {
        0
    } else {
        (remaining - elapsed) as u128
    }
}

/// A remaining time as a clock face shows it: the full minutes, a colon,
/// and the seconds of the minute under way in two digits.
pub open spec fn time_text(ms: u128) -> Seq<char> {
    let seconds = ((ms % 60000) / 1000) as nat;
    decimal((ms / 60000) as nat) + seq![':', digit_char(seconds / 10), digit_char(seconds % 10)]
}

/// The remaining time `ms` as a clock face shows it.
pub fn time_label(ms: u128) -> (label: String)
    ensures
        label@ == time_text(ms),
{
    let seconds: u8 = ((ms % 60000) / 1000) as u8;
    let mut label = String::from_str("");
    push_decimal(&mut label, ms / 60000);
    label.append(":");
    label.append(digit_str(seconds / 10));
    label.append(digit_str(seconds % 10));
    proof {
        reveal_strlit("");
        reveal_strlit(":");
        assert(label@ =~= time_text(ms));
    }
    label
}

impl Clock {
    /// The clock as it stands after a tick at `now` with `side` to move.
    pub open spec fn ticked(self, now: u128, side: Side) -> Clock {
        let elapsed = elapsed_between(self.last_tick, now);
        match side {
            Side::White => Clock {
                wtime: drained(self.wtime, elapsed),
                btime: self.btime,
                last_tick: now,
            },
            Side::Black => Clock {
                wtime: self.wtime,
                btime: drained(self.btime, elapsed),
                last_tick: now,
            },
        }
    }

    /// The clock that `new` makes: the full initial time on both sides.
    pub open spec fn new_spec(now: u128) -> Clock {
        Clock { wtime: INITIAL_TIME_MS, btime: INITIAL_TIME_MS, last_tick: now }
    }

    /// A clock with the full initial time on both sides, last ticked at `now`.
    #[verifier::when_used_as_spec(new_spec)]
    pub fn new(now: u128) -> (clock: Clock)
        ensures
            clock == Clock::new_spec(now),
    {
        Clock { wtime: INITIAL_TIME_MS, btime: INITIAL_TIME_MS, last_tick: now }
    }

    /// Charges the time since the last tick to the side that is to move.
    ///
    /// The other side's time is untouched, and no time ever grows.
    pub fn tick(&mut self, now: u128, side_to_move: Side)
        ensures
            *final(self) == old(self).ticked(now, side_to_move),
            final(self).wtime <= old(self).wtime,
            final(self).btime <= old(self).btime,
    {
        let elapsed = now.saturating_sub(self.last_tick);
        match side_to_move {
            Side::White => {
                self.wtime = self.wtime.saturating_sub(elapsed);
            },
            Side::Black => {
                self.btime = self.btime.saturating_sub(elapsed);
            },
        }
        self.last_tick = now;
    }

    /// The remaining time of white and of black, in this order.
    pub fn snapshot(&self) -> (times: (u128, u128))
        ensures
            times == (self.wtime, self.btime),
    {
        (self.wtime, self.btime)
    }
}

/// A tick charges only the side to move, never adds time, and a later tick
/// can only lower what an earlier one left.
pub proof fn lemma_tick_charges_side_to_move(clock: Clock, now: u128, side: Side)
    ensures
        side == Side::White ==> clock.ticked(now, side).btime == clock.btime,
        side == Side::Black ==> clock.ticked(now, side).wtime == clock.wtime,
        clock.ticked(now, side).wtime <= clock.wtime,
        clock.ticked(now, side).btime <= clock.btime,
        clock.ticked(now, side).last_tick == now,
        now <= clock.last_tick ==> clock.ticked(now, side).wtime == clock.wtime
            && clock.ticked(now, side).btime == clock.btime,
{
}

} // verus!
