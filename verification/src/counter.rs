//! The live counter engine: a wrapping 0..=100 counter with miss accounting.
//!
//! `Counter` is the state block shared between a producer loop and its
//! observers: a value on the dial of 0..=100, a count of wraparounds
//! (misses), and a running flag. This module holds the state machine —
//! what `start`, a tick, `stop` and a snapshot do to the state — fully
//! verified. The pacing of ticks (sleeping one interval between them), the
//! thread that delivers them, and the polling observer belong to the
//! surrounding program, which drives this state machine under a lock.
//!
//! One run goes `start` (counters reset, running) → ticks delivered at the
//! configured interval → `stop` (running cleared, snapshot returned). A tick
//! increments the value; a tick that would push it above 100 resets it to 0
//! and counts one miss in the same step, so no observer ever sees a value
//! above 100.

use vstd::prelude::*;
use vstd::arithmetic::div_mod::{
    lemma_fundamental_div_mod, lemma_fundamental_div_mod_converse, lemma_mod_pos_bound,
};
use crate::error::{GameError, GameResult};

verus! {

/// The number of positions on the dial: values 0 through 100.
pub open spec fn dial_size() -> int {
    101
}

/// A wrapping counter with miss accounting and a running flag.
pub struct Counter {
    /// The current counter value, always on the dial 0..=100.
    value: u32,
    /// Number of times the counter has wrapped back to 0 in this run.
    miss: u32,
    /// Whether a run is in progress.
    running: bool,
}

impl Counter {
    /// The current counter value.
    pub closed spec fn spec_value(self) -> u32 {
        self.value
    }

    /// The current miss count.
    pub closed spec fn spec_miss(self) -> u32 {
        self.miss
    }

    /// Whether a run is in progress.
    pub closed spec fn spec_running(self) -> bool {
        self.running
    }

    /// Well-formedness: the value never leaves the dial.
    pub open spec fn wf(self) -> bool {
        self.spec_value() <= 100
    }

    /// The state at the beginning of a run: both counters reset, running.
    pub closed spec fn started(self) -> Counter {
        Counter { value: 0, miss: 0, running: true }
    }

    /// The state after a stop request: only the running flag is cleared.
    pub closed spec fn stopped(self) -> Counter {
        Counter { running: false, ..self }
    }

    /// The state after `n` ticks are delivered while running: the value
    /// walks around the dial, and each wrap past 100 counts one miss.
    pub closed spec fn ticked(self, n: nat) -> Counter {
        Counter {
            value: ((self.value + n) % dial_size()) as u32,
            miss: (self.miss + (self.value + n) / dial_size()) as u32,
            running: self.running,
        }
    }

    /// A point-in-time observation: `(value, miss, running)`.
    pub closed spec fn spec_snapshot(self) -> (u32, u32, bool) {
        (self.value, self.miss, self.running)
    }

    /// Creates a new counter: value and miss count zero, not running.
    pub fn new() -> (r: Self)
        ensures
            r.spec_value() == 0,
            r.spec_miss() == 0,
            !r.spec_running(),
            r.wf(),
    {
        Self { value: 0, miss: 0, running: false }
    }

    /// Begins a run: resets value and miss count to zero — whatever the
    /// previous run left behind — and raises the running flag.
    ///
    /// `speed_ms` is the tick interval in milliseconds at which the caller's
    /// producer loop will deliver ticks; it must be positive, and an interval
    /// of zero is rejected without touching the state.
    pub fn start(&mut self, speed_ms: u32) -> (r: GameResult<()>)
        ensures
            speed_ms > 0 ==> r is Ok && *final(self) == old(self).started(),
            speed_ms == 0 ==> r is Err && *final(self) == *old(self),
            speed_ms > 0 ==> final(self).spec_value() == 0 && final(self).spec_miss() == 0
                && final(self).spec_running(),
    {
        if speed_ms == 0 {
            return Err(GameError::logic("the tick interval must be positive"));
        }
        self.value = 0;
        self.miss = 0;
        self.running = true;
        Ok(())
    }

    /// Delivers one tick: while running, the value advances one step on the
    /// dial, and a step past 100 resets it to 0 and counts one miss in the
    /// same move. A tick after a stop request changes nothing.
    pub fn tick(&mut self)
        requires
            old(self).wf(),
            old(self).spec_running() && old(self).spec_value() == 100 ==> old(self).spec_miss()
                < u32::MAX,
        ensures
            *final(self) == old(self).ticked(if old(self).spec_running() { 1nat } else { 0nat }),
            final(self).wf(),
            !old(self).spec_running() ==> *final(self) == *old(self),
            old(self).spec_running() ==> final(self).spec_running() && final(self).spec_miss()
                == old(self).spec_miss() + if old(self).spec_value() == 100 { 1int } else { 0int },
            old(self).spec_running() ==> final(self).spec_value() == if old(self).spec_value()
                == 100 { 0int } else { old(self).spec_value() + 1 },
    {
        proof {
            lemma_tick_step(*old(self), 0);
            lemma_ticked_zero(*old(self));
        }
        if self.running {
            if self.value >= 100 {
                self.value = 0;
                self.miss = self.miss + 1;
            } else {
                self.value = self.value + 1;
            }
        }
    }

    /// Delivers `n` ticks in a row while running, as the producer loop would
    /// over `n` intervals: the value ends `n` steps further around the dial
    /// and the miss count grows by the number of completed laps.
    pub fn run_ticks(&mut self, n: u32)
        requires
            old(self).wf(),
            old(self).spec_running(),
            old(self).spec_miss() + (old(self).spec_value() + n) / dial_size() <= u32::MAX,
        ensures
            *final(self) == old(self).ticked(n as nat),
            final(self).wf(),
            final(self).spec_running(),
            final(self).spec_value() == (old(self).spec_value() + n) % dial_size(),
            final(self).spec_miss() == old(self).spec_miss() + (old(self).spec_value() + n)
                / dial_size(),
    {
        let ghost s0 = *self;
        let mut i: u32 = 0;
        proof {
            lemma_ticked_zero(s0);
        }
        while i < n
            invariant
                0 <= i <= n,
                s0.wf(),
                s0.spec_running(),
                s0.spec_miss() + (s0.spec_value() + n) / dial_size() <= u32::MAX,
                *self == s0.ticked(i as nat),
            decreases n - i,
        {
            proof {
                lemma_tick_step(s0, i as int);
                lemma_laps_monotonic(s0.spec_value() as int, i as int, n as int);
                lemma_laps_monotonic(s0.spec_value() as int, i as int + 1, n as int);
            }
            self.tick();
            i = i + 1;
        }
        proof {
            lemma_mod_pos_bound(s0.spec_value() + n, dial_size());
            vstd::arithmetic::div_mod::lemma_div_pos_is_pos(s0.spec_value() + n, dial_size());
        }
    }

    /// Requests a stop and returns the instantaneous `(value, miss)` pair.
    ///
    /// This only clears the running flag: a producer loop still asleep may
    /// deliver nothing more once it wakes and sees the flag down, so the
    /// returned pair is the final result of the run.
    pub fn stop(&mut self) -> (r: (u32, u32))
        ensures
            *final(self) == old(self).stopped(),
            !final(self).spec_running(),
            r.0 == old(self).spec_value(),
            r.1 == old(self).spec_miss(),
            final(self).spec_value() == old(self).spec_value(),
            final(self).spec_miss() == old(self).spec_miss(),
    {
        self.running = false;
        (self.value, self.miss)
    }

    /// Reads the current `(value, miss, running)` triple without mutating
    /// anything; this is the observation the display loop polls.
    pub fn get_display_values(&self) -> (r: (u32, u32, bool))
        ensures
            r == self.spec_snapshot(),
            r.0 == self.spec_value(),
            r.1 == self.spec_miss(),
            r.2 == self.spec_running(),
            self.wf() ==> r.0 <= 100,
    {
        (self.value, self.miss, self.running)
    }

    /// Gets the current counter value.
    pub fn get_value(&self) -> (r: u32)
        ensures
            r == self.spec_value(),
    {
        self.value
    }

    /// Gets the current miss count.
    pub fn get_miss(&self) -> (r: u32)
        ensures
            r == self.spec_miss(),
    {
        self.miss
    }
}

impl Default for Counter {
    /// Creates a new counter with both counters at zero and not running.
    fn default() -> (r: Self)
        ensures
            r.spec_value() == 0,
            r.spec_miss() == 0,
            !r.spec_running(),
            r.wf(),
    {
        Self::new()
    }
}

/// From a fresh start, `n` ticks leave the value at `n mod 101` and the
/// miss count at `n div 101`, whatever state the counter was in before the
/// start: after 101 ticks the snapshot is `(0, 1)`, after 150 it is
/// `(49, 1)`.
pub proof fn lemma_fresh_run_counts(s: Counter, n: nat)
    requires
        n <= u32::MAX,
    ensures
        s.started().ticked(n).spec_value() == n % (dial_size() as nat),
        s.started().ticked(n).spec_miss() == n / (dial_size() as nat),
        s.started().ticked(n).spec_running(),
{
    lemma_mod_pos_bound(n as int, dial_size());
    vstd::arithmetic::div_mod::lemma_div_nonincreasing(n as int, dial_size());
    lemma_div_pos(n as int);
}

/// A stop request followed immediately by a snapshot never reports the
/// counter as running.
pub proof fn lemma_stop_then_snapshot_not_running(s: Counter)
    ensures
        !s.stopped().spec_snapshot().2,
{
}

/// Starting a run always resets the value and the miss count to zero and
/// raises the running flag, regardless of the prior run's ending values.
pub proof fn lemma_start_resets(s: Counter)
    ensures
        s.started().spec_value() == 0,
        s.started().spec_miss() == 0,
        s.started().spec_running(),
{
}

/// No observation ever shows a value above 100: a started counter is
/// well-formed, every tick and every stop request keeps it well-formed, and
/// a snapshot of a well-formed counter reports a value on the dial.
pub proof fn lemma_observed_value_on_dial(s: Counter, n: nat)
    ensures
        s.started().wf(),
        s.wf() ==> s.ticked(n).wf(),
        s.wf() ==> s.stopped().wf(),
        s.wf() ==> s.spec_snapshot().0 <= 100,
{
    lemma_mod_pos_bound(s.spec_value() + n, dial_size());
}

/// A start followed immediately by a stop, before any tick, reports the
/// snapshot `(0, 0)` and not running.
pub proof fn lemma_start_then_stop(s: Counter)
    ensures
        s.started().stopped().spec_snapshot() == (0u32, 0u32, false),
{
}

/// Restarting after any completed run resets the state to value 0, miss 0,
/// running — independent of the previous run's final snapshot.
pub proof fn lemma_restart_resets(s: Counter, n: nat)
    ensures
        s.started().ticked(n).stopped().started().spec_snapshot() == (0u32, 0u32, true),
{
}

/// The quotient of non-negative ticks by the dial size is non-negative.
proof fn lemma_div_pos(x: int)
    requires
        x >= 0,
    ensures
        x / dial_size() >= 0,
{
    vstd::arithmetic::div_mod::lemma_div_pos_is_pos(x, dial_size());
}

/// Zero ticks leave a well-formed state unchanged.
proof fn lemma_ticked_zero(s: Counter)
    requires
        s.wf(),
    ensures
        s.ticked(0) == s,
{
    lemma_mod_pos_bound(s.spec_value() as int, dial_size());
    lemma_fundamental_div_mod_converse(s.spec_value() as int, dial_size(), 0, s.spec_value() as int);
}

/// One more tick from the state reached after `i` ticks: the value either
/// advances one step or wraps to 0 with one more completed lap.
proof fn lemma_tick_step(s: Counter, i: int)
    requires
        s.wf(),
        i >= 0,
    ensures
        s.ticked(i as nat).wf(),
        (s.spec_value() + i) % dial_size() < 100 ==> {
            &&& (s.spec_value() + i + 1) % dial_size() == (s.spec_value() + i) % dial_size() + 1
            &&& (s.spec_value() + i + 1) / dial_size() == (s.spec_value() + i) / dial_size()
        },
        (s.spec_value() + i) % dial_size() == 100 ==> {
            &&& (s.spec_value() + i + 1) % dial_size() == 0
            &&& (s.spec_value() + i + 1) / dial_size() == (s.spec_value() + i) / dial_size() + 1
        },
        (s.spec_value() + i) / dial_size() >= 0,
{
    let x = s.spec_value() + i;
    let d = dial_size();
    lemma_fundamental_div_mod(x, d);
    lemma_mod_pos_bound(x, d);
    let q = x / d;
    let r = x % d;
    if r < 100 {
        lemma_fundamental_div_mod_converse(x + 1, d, q, r + 1);
    } else {
        lemma_fundamental_div_mod_converse(x + 1, d, q + 1, 0);
    }
    if q < 0 {
        vstd::arithmetic::mul::lemma_mul_inequality(q, -1, d);
        assert(false);
    }
}

/// With more ticks come at least as many completed laps.
proof fn lemma_laps_monotonic(v: int, i: int, n: int)
    requires
        0 <= v,
        0 <= i <= n,
    ensures
        (v + i) / dial_size() <= (v + n) / dial_size(),
{
    vstd::arithmetic::div_mod::lemma_div_is_ordered(v + i, v + n, dial_size());
}

} // verus!
