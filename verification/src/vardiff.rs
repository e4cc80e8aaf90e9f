//! Variable-difficulty controller: each session keeps a rolling window
//! of accepted-share timestamps; the controller periodically compares
//! the observed share rate with the configured target and scales the
//! session difficulty proportionally, bounded below by the instance
//! minimum, optionally clamped to a power of two.

use vstd::prelude::*;

verus! {

/// Length of the rolling share window, in milliseconds.
pub const VAR_DIFF_WINDOW_MS: u64 = 60000;

/// A share timestamp still inside the rolling window at `now`.
pub open spec fn is_recent(t: u64, now: u64) -> bool {
    (now as int) - (t as int) < (VAR_DIFF_WINDOW_MS as int)
}

/// Number of window entries still inside the rolling window at `now`.
pub open spec fn count_recent(w: Seq<u64>, now: u64) -> nat
    decreases w.len(),
{
    if w.len() == 0 {
        0
    } else {
        count_recent(w.drop_last(), now) + if is_recent(w.last(), now) {
            1nat
        } else {
            0nat
        }
    }
}

/// The window entries still inside the rolling window at `now`, in order.
pub open spec fn retain_recent(w: Seq<u64>, now: u64) -> Seq<u64>
    decreases w.len(),
{
    if w.len() == 0 {
        Seq::<u64>::empty()
    } else {
        retain_recent(w.drop_last(), now) + if is_recent(w.last(), now) {
            seq![w.last()]
        } else {
            Seq::<u64>::empty()
        }
    }
}

/// `n` is an exact power of two.
pub open spec fn pow2_int(k: nat) -> int
    decreases k,
{
    if k == 0 {
        1
    } else {
        2 * pow2_int((k - 1) as nat)
    }
}

/// `n` is an exact power of two.
pub open spec fn is_power_of_two(n: int) -> bool {
    exists|k: nat| n == pow2_int(k)
}

/// Difficulty scaled by the ratio of the observed share rate to the
/// target rate, before bounding: `diff * observed / target`.
pub open spec fn scaled_difficulty(diff: u64, observed: nat, target: u32) -> int
    recommends
        target >= 1,
{
    (diff as int * observed as int) / (target as int)
}

/// The difficulty `adjust` settles on before any power-of-two clamp:
/// the scaled value, saturated into `u64`, bounded below by the
/// configured minimum.
pub open spec fn bounded_difficulty(diff: u64, observed: nat, target: u32, min_diff: u64) -> int
    recommends
        target >= 1,
{
    let raw = scaled_difficulty(diff, observed, target);
    let sat = if raw > u64::MAX as int {
        u64::MAX as int
    } else {
        raw
    };
    if sat < min_diff as int {
        min_diff as int
    } else {
        sat
    }
}

/// Per-session difficulty state: the current target and the rolling
/// window of accepted-share timestamps, mutated only on behalf of the
/// owning session.
pub struct DifficultyState {
    /// Current per-session difficulty; always at least 1.
    difficulty: u64,
    window: Vec<u64>,
}

impl DifficultyState {
    /// The current difficulty is a usable target.
    pub closed spec fn wf(self) -> bool {
        self.difficulty >= 1
    }

    /// Current per-session difficulty.
    pub closed spec fn spec_difficulty(self) -> u64 {
        self.difficulty
    }

    /// The rolling window of accepted-share timestamps.
    pub closed spec fn spec_window(self) -> Seq<u64> {
        self.window@
    }

    /// Fresh state at the instance's configured minimum difficulty.
    pub fn new(min_diff: u64) -> (r: DifficultyState)
        requires
            min_diff >= 1,
        ensures
            r.wf(),
            r.spec_difficulty() == min_diff,
            r.spec_window() == Seq::<u64>::empty(),
    {
        DifficultyState { difficulty: min_diff, window: Vec::new() }
    }

    /// Current per-session difficulty.
    pub fn difficulty(&self) -> (r: u64)
        ensures
            r == self.spec_difficulty(),
            self.wf() ==> r >= 1,
    {
        self.difficulty
    }

    /// Puts a difficulty directly in force, as when a session enters
    /// `Mining` at the instance's configured minimum.
    pub fn set_difficulty(&mut self, d: u64)
        requires
            old(self).wf(),
            d >= 1,
        ensures
            final(self).wf(),
            final(self).spec_difficulty() == d,
            final(self).spec_window() == old(self).spec_window(),
    {
        self.difficulty = d;
    }

    /// Records the timestamp of an accepted share.
    pub fn record_share(&mut self, now: u64)
        requires
            old(self).wf(),
        ensures
            final(self).wf(),
            final(self).spec_difficulty() == old(self).spec_difficulty(),
            final(self).spec_window() == old(self).spec_window().push(now),
    {
        self.window.push(now);
    }

    /// Drops every window entry that left the rolling window.
    pub fn prune(&mut self, now: u64)
        requires
            old(self).wf(),
        ensures
            final(self).wf(),
            final(self).spec_difficulty() == old(self).spec_difficulty(),
            final(self).spec_window() == retain_recent(old(self).spec_window(), now),
    {
        let mut kept: Vec<u64> = Vec::new();
        let mut i: usize = 0;
        while i < self.window.len()
            invariant
                self.difficulty == old(self).difficulty,
                self.window == old(self).window,
                i <= self.window@.len(),
                kept@ =~= retain_recent(self.window@.subrange(0, i as int), now),
            decreases self.window@.len() - i,
        {
            let t = self.window[i];
            proof {
                assert(self.window@.subrange(0, i as int + 1).drop_last() =~= self
                    .window@
                    .subrange(0, i as int));
                assert(self.window@.subrange(0, i as int + 1).last() == t);
            }
            let recent = if t >= now {
                true
            } else {
                now - t < VAR_DIFF_WINDOW_MS
            };
            if recent {
                kept.push(t);
            }
            assert(kept@ =~= retain_recent(self.window@.subrange(0, i as int + 1), now));
            i = i + 1;
        }
        assert(self.window@.subrange(0, self.window@.len() as int) =~= self.window@);
        self.window = kept;
    }

    /// Number of shares inside the rolling window at `now` — the
    /// observed shares-per-minute rate.
    pub fn recent_shares(&self, now: u64) -> (r: usize)
        ensures
            r == count_recent(self.spec_window(), now),
    {
        let mut c: usize = 0;
        let mut i: usize = 0;
        while i < self.window.len()
            invariant
                i <= self.window@.len(),
                c == count_recent(self.window@.subrange(0, i as int), now),
                c <= i,
            decreases self.window@.len() - i,
        {
            let t = self.window[i];
            proof {
                assert(self.window@.subrange(0, i as int + 1).drop_last() =~= self
                    .window@
                    .subrange(0, i as int));
                assert(self.window@.subrange(0, i as int + 1).last() == t);
            }
            let recent = if t >= now {
                true
            } else {
                now - t < VAR_DIFF_WINDOW_MS
            };
            if recent {
                c = c + 1;
            }
            i = i + 1;
        }
        assert(self.window@.subrange(0, self.window@.len() as int) =~= self.window@);
        c
    }

    /// One VarDiff adjustment: scales the difficulty by the ratio of the
    /// observed share rate over the window to the target rate, bounds it
    /// below by the instance minimum, and, when the power-of-two clamp
    /// is on, rounds to a power of two within a factor of two of the
    /// bounded value. Returns the difficulty now in force.
    pub fn adjust(&mut self, now: u64, shares_per_min: u32, min_diff: u64, pow2_clamp: bool)
        -> (d: u64)
        requires
            old(self).wf(),
            shares_per_min >= 1,
            min_diff >= 1,
        ensures
            final(self).wf(),
            final(self).spec_window() == old(self).spec_window(),
            d == final(self).spec_difficulty(),
            ({
                let bounded = bounded_difficulty(
                    old(self).spec_difficulty(),
                    count_recent(old(self).spec_window(), now),
                    shares_per_min,
                    min_diff,
                );
                if pow2_clamp {
                    &&& is_power_of_two(d as int)
                    &&& d as int <= 2 * bounded
                    &&& bounded <= 2 * d as int
                    &&& bounded < 0x8000000000000000 ==> {
                        &&& (d as int <= bounded ==> 2 * bounded < 3 * (d as int))
                        &&& (d as int > bounded ==> 3 * (d as int) <= 4 * bounded)
                    }
                } else {
                    d as int == bounded
                }
            }),
            !pow2_clamp ==> d >= min_diff,
            pow2_clamp ==> is_power_of_two(d as int),
    {
        let observed = self.recent_shares(now);
        proof {
            assert((self.difficulty as int) * (observed as int) < 0x100000000000000000000000000000000)
                by (nonlinear_arith)
                requires
                    self.difficulty <= 0xffffffffffffffffu64,
                    observed <= 0xffffffffffffffffu64 as int,
            ;
        }
        let prod: u128 = (self.difficulty as u128) * (observed as u128);
        let scaled: u128 = prod / (shares_per_min as u128);
        let sat: u64 = if scaled > u64::MAX as u128 {
            u64::MAX
        } else {
            scaled as u64
        };
        let bounded: u64 = if sat < min_diff {
            min_diff
        } else {
            sat
        };
        let d = if pow2_clamp {
            round_to_pow2(bounded)
        } else {
            bounded
        };
        self.difficulty = d;
        d
    }
}

/// Rounds to the nearest power of two: the result is an exact power of
/// two within a factor of two of the argument, and (below the top of
/// the range) the nearer of the two neighbouring powers, ties upward.
pub fn round_to_pow2(x: u64) -> (r: u64)
    requires
        x >= 1,
    ensures
        is_power_of_two(r as int),
        r >= 1,
        r as int <= 2 * x as int,
        x as int <= 2 * r as int,
        x < 0x8000000000000000 ==> {
            &&& (r as int <= x as int ==> 2 * (x as int) < 3 * (r as int))
            &&& (r as int > x as int ==> 3 * (r as int) <= 4 * (x as int))
        },
{
    let mut p: u64 = 1;
    assert(1int == pow2_int(0));
    while p <= x / 2
        invariant
            x >= 1,
            1 <= p <= x,
            is_power_of_two(p as int),
        decreases x - p,
    {
        proof {
            let k = choose|k: nat| p as int == pow2_int(k);
            assert(2 * p as int == pow2_int(k + 1));
        }
        p = p * 2;
    }
    // now p <= x and 2p > x
    if p > u64::MAX / 2 {
        return p;
    }
    let hi = p * 2;
    proof {
        let k = choose|k: nat| p as int == pow2_int(k);
        assert(hi as int == pow2_int(k + 1));
    }
    if x - p < hi - x {
        p
    } else {
        hi
    }
}

} // verus!
