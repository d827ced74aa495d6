//! Autonomous eyelid blinking: a timed state machine whose output is the
//! eyelid closure amount, eased smoothly between open and shut.
//!
//! Time is the installation's monotone clock in milliseconds. The closure
//! amount is scaled to per-mille: 0 is fully open, 1000 fully shut. The
//! spontaneous trigger is a per-tick Bernoulli trial whose odds are derived
//! from the elapsed time, so the expected interval between blinks does not
//! depend on the frame rate; the caller supplies one uniformly random draw
//! per tick.

use vstd::prelude::*;
use vstd::arithmetic::div_mod::{lemma_div_is_ordered, lemma_div_multiples_vanish};
use vstd::arithmetic::mul::lemma_mul_inequality;

verus! {

/// Closure value meaning "fully shut"; outputs range over `[0, CLOSURE_SCALE]`.
pub const CLOSURE_SCALE: u16 = 1000;

/// Longest supported phase duration, in milliseconds.
pub const MAX_PHASE_MS: u64 = 1_000_000_000;

/// Eyelid phase; the moving phases remember the time they began.
#[derive(Clone, Copy, PartialEq, Eq, Structural, Debug)]
pub enum BlinkPhase {
    /// Eye fully open, waiting for the next spontaneous blink.
    Dormant,
    /// Eyelid closing since the given time.
    Closing(u64),
    /// Eyelid held shut since the given time.
    Closed(u64),
    /// Eyelid reopening since the given time.
    Opening(u64),
}

/// Smooth ease-in/ease-out curve on per-mille inputs and outputs:
/// `x * x * (3000 - 2 * x) / 1000000`, the cubic smoothstep scaled to 1000.
pub open spec fn smoothstep_pm(x: int) -> int {
    x * x * (3000 - 2 * x) / 1000000
}

/// Eased progress through a phase of duration `d` at elapsed time `t`,
/// in per-mille.
pub open spec fn ease_pm(t: int, d: int) -> int {
    smoothstep_pm(t * 1000 / d)
}

/// The smoothstep curve never decreases on `[0, 1000]`.
pub proof fn lemma_smoothstep_monotone(a: int, b: int)
    requires
        0 <= a <= b <= 1000,
    ensures
        smoothstep_pm(a) <= smoothstep_pm(b),
{
    let fa = a * a * (3000 - 2 * a);
    let fb = b * b * (3000 - 2 * b);
    assert(b * b * (3000 - 2 * b) - a * a * (3000 - 2 * a)
        == (b - a) * (3000 * (a + b) - 2 * (a * a + a * b + b * b))) by (nonlinear_arith);
    assert(2 * (a * a + a * b + b * b) <= 3000 * (a + b)) by (nonlinear_arith)
        requires
            0 <= a <= b <= 1000,
    ;
    assert((b - a) * (3000 * (a + b) - 2 * (a * a + a * b + b * b)) >= 0) by (nonlinear_arith)
        requires
            a <= b,
            2 * (a * a + a * b + b * b) <= 3000 * (a + b),
    ;
    lemma_div_is_ordered(fa, fb, 1000000);
}

/// The smoothstep curve stays within per-mille range and hits both ends.
pub proof fn lemma_smoothstep_range(x: int)
    requires
        0 <= x <= 1000,
    ensures
        0 <= smoothstep_pm(x) <= 1000,
        smoothstep_pm(0) == 0,
        smoothstep_pm(1000) == 1000,
{
    lemma_smoothstep_monotone(0, x);
    lemma_smoothstep_monotone(x, 1000);
    assert(smoothstep_pm(0) == 0) by (nonlinear_arith);
    assert(smoothstep_pm(1000) == 1000) by (nonlinear_arith);
}

/// Eased per-mille progress `ease_pm(t, d)` through a phase of duration `d`.
pub fn ease_permille(t: u64, d: u64) -> (r: u16)
    requires
        1 <= d <= MAX_PHASE_MS,
        t <= d,
    ensures
        r == ease_pm(t as int, d as int),
        r <= 1000,
{
    let x: u64 = t * 1000 / d;
    proof {
        lemma_mul_inequality(t as int, d as int, 1000);
        lemma_div_is_ordered(t as int * 1000, d as int * 1000, d as int);
        lemma_div_multiples_vanish(1000, d as int);
        assert(d as int * 1000 == 1000 * d as int) by (nonlinear_arith);
        assert(x <= 1000);
        lemma_smoothstep_range(x as int);
        assert(x * x <= 1000000) by (nonlinear_arith)
            requires
                x <= 1000,
        ;
        assert(x * x * (3000 - 2 * x) <= 3000000000) by (nonlinear_arith)
            requires
                x <= 1000,
        ;
    }
    let y: u64 = x * x * (3000 - 2 * x);
    (y / 1000000) as u16
}

/// Denominator of the per-tick trigger trial: with a mean interval of
/// `mean` milliseconds and `dt` milliseconds since the previous tick, the
/// trial succeeds with odds one in `max(mean / max(dt, 1), 1)`.
pub open spec fn trigger_denominator(mean: int, dt: int) -> int {
    let step = if dt < 1 {
        1
    } else {
        dt
    };
    let q = mean / step;
    if q < 1 {
        1
    } else {
        q
    }
}

/// Whether the uniform draw starts a blink this tick.
pub open spec fn spec_triggers(mean: int, dt: int, draw: int) -> bool {
    draw % trigger_denominator(mean, dt) == 0
}

/// Timed eyelid state machine producing the closure amount each tick.
pub struct BlinkController {
    /// Current eyelid phase.
    pub phase: BlinkPhase,
    /// Milliseconds a closing phase lasts.
    pub shutting_ms: u64,
    /// Milliseconds the eye stays shut.
    pub closed_ms: u64,
    /// Milliseconds an opening phase lasts.
    pub opening_ms: u64,
    /// Mean milliseconds between spontaneous blinks.
    pub mean_interval_ms: u64,
    /// Time of the previous update.
    pub last_ms: u64,
    /// Closure amount reported by the previous update, in per-mille.
    pub val: u16,
}

impl BlinkController {
    /// Durations are positive and bounded, the mean blink interval is
    /// positive, any phase start time lies in the past, and the last
    /// output is a valid closure amount.
    pub open spec fn wf(self) -> bool {
        &&& 1 <= self.shutting_ms <= MAX_PHASE_MS
        &&& 1 <= self.closed_ms <= MAX_PHASE_MS
        &&& 1 <= self.opening_ms <= MAX_PHASE_MS
        &&& 1 <= self.mean_interval_ms
        &&& match self.phase {
            BlinkPhase::Dormant => true,
            BlinkPhase::Closing(s) => s <= self.last_ms,
            BlinkPhase::Closed(s) => s <= self.last_ms,
            BlinkPhase::Opening(s) => s <= self.last_ms,
        }
        &&& self.val <= 1000
    }

    /// The closure amount this machine reports at time `now`, before any
    /// phase change is applied.
    pub open spec fn value_at(self, now: int) -> int {
        match self.phase {
            BlinkPhase::Dormant => 0,
            BlinkPhase::Closing(s) => if now - s < self.shutting_ms {
                ease_pm(now - s, self.shutting_ms as int)
            } else {
                1000
            },
            BlinkPhase::Closed(s) => 1000,
            BlinkPhase::Opening(s) => if now - s < self.opening_ms {
                1000 - ease_pm(now - s, self.opening_ms as int)
            } else {
                0
            },
        }
    }

    /// The phase the machine moves to at time `now`, given whether the
    /// spontaneous trigger fired.
    pub open spec fn phase_at(self, now: int, triggered: bool) -> BlinkPhase {
        match self.phase {
            BlinkPhase::Dormant => if triggered {
                BlinkPhase::Closing(now as u64)
            } else {
                BlinkPhase::Dormant
            },
            BlinkPhase::Closing(s) => if now - s < self.shutting_ms {
                BlinkPhase::Closing(s)
            } else {
                BlinkPhase::Closed(now as u64)
            },
            BlinkPhase::Closed(s) => if now - s < self.closed_ms {
                BlinkPhase::Closed(s)
            } else {
                BlinkPhase::Opening(now as u64)
            },
            BlinkPhase::Opening(s) => if now - s < self.opening_ms {
                BlinkPhase::Opening(s)
            } else {
                BlinkPhase::Dormant
            },
        }
    }

    /// The whole controller state after one update at time `now` with the
    /// uniform draw `draw`.
    pub open spec fn updated(self, now: int, draw: int) -> BlinkController {
        BlinkController {
            phase: self.phase_at(now, spec_triggers(self.mean_interval_ms as int,
                now - self.last_ms, draw)),
            last_ms: now as u64,
            val: self.value_at(now) as u16,
            ..self
        }
    }

    /// A fresh controller with the eye open.
    pub fn new(shutting_ms: u64, closed_ms: u64, opening_ms: u64, mean_interval_ms: u64)
        -> (c: BlinkController)
        requires
            1 <= shutting_ms <= MAX_PHASE_MS,
            1 <= closed_ms <= MAX_PHASE_MS,
            1 <= opening_ms <= MAX_PHASE_MS,
            1 <= mean_interval_ms,
        ensures
            c.wf(),
            c.phase == BlinkPhase::Dormant,
            c.val == 0,
            c.last_ms == 0,
            c.shutting_ms == shutting_ms,
            c.closed_ms == closed_ms,
            c.opening_ms == opening_ms,
            c.mean_interval_ms == mean_interval_ms,
    {
        BlinkController {
            phase: BlinkPhase::Dormant,
            shutting_ms,
            closed_ms,
            opening_ms,
            mean_interval_ms,
            last_ms: 0,
            val: 0,
        }
    }

    /// Advances the machine to time `now_ms` and returns the closure
    /// amount. `draw` must be one fresh uniformly distributed random value
    /// per tick; it decides the spontaneous trigger while the eye is open.
    pub fn update(&mut self, now_ms: u64, draw: u64) -> (v: u16)
        requires
            old(self).wf(),
            old(self).last_ms <= now_ms,
        ensures
            final(self).wf(),
            final(self).last_ms == now_ms,
            v == old(self).value_at(now_ms as int),
            final(self).val == v,
            v <= 1000,
            final(self).phase == old(self).phase_at(
                now_ms as int,
                spec_triggers(
                    old(self).mean_interval_ms as int,
                    now_ms - old(self).last_ms,
                    draw as int,
                ),
            ),
            final(self).shutting_ms == old(self).shutting_ms,
            final(self).closed_ms == old(self).closed_ms,
            final(self).opening_ms == old(self).opening_ms,
            final(self).mean_interval_ms == old(self).mean_interval_ms,
            *final(self) == old(self).updated(now_ms as int, draw as int),
    {
        let v: u16 = match self.phase {
            BlinkPhase::Closing(start) => {
                let t: u64 = now_ms - start;
                if t < self.shutting_ms {
                    ease_permille(t, self.shutting_ms)
                } else {
                    self.phase = BlinkPhase::Closed(now_ms);
                    1000
                }
            },
            BlinkPhase::Closed(start) => {
                let t: u64 = now_ms - start;
                if t >= self.closed_ms {
                    self.phase = BlinkPhase::Opening(now_ms);
                }
                1000
            },
            BlinkPhase::Opening(start) => {
                let t: u64 = now_ms - start;
                if t < self.opening_ms {
                    let eased: u16 = ease_permille(t, self.opening_ms);
                    1000 - eased
                } else {
                    self.phase = BlinkPhase::Dormant;
                    0
                }
            },
            BlinkPhase::Dormant => {
                let dt: u64 = now_ms - self.last_ms;
                let step: u64 = if dt < 1 {
                    1
                } else {
                    dt
                };
                let q: u64 = self.mean_interval_ms / step;
                let denom: u64 = if q < 1 {
                    1
                } else {
                    q
                };
                if draw % denom == 0 {
                    self.phase = BlinkPhase::Closing(now_ms);
                }
                0
            },
        };
        self.val = v;
        self.last_ms = now_ms;
        v
    }

    /// Within a single closing phase the closure amount never decreases:
    /// reading the machine at a later time while it closes (or once it has
    /// just shut) gives a value at least as large.
    pub proof fn lemma_closing_monotone(self, t1: int, t2: int)
        requires
            self.wf(),
            self.phase matches BlinkPhase::Closing(s) && s <= t1,
            t1 <= t2,
        ensures
            self.value_at(t1) <= self.value_at(t2),
    {
        let s = self.phase->Closing_0 as int;
        let d = self.shutting_ms as int;
        Self::lemma_ease_bounds(t1 - s, d);
        Self::lemma_ease_bounds(t2 - s, d);
        if t2 - s < d {
            Self::lemma_ease_monotone(t1 - s, t2 - s, d);
        }
    }

    /// Within a single opening phase the closure amount never increases.
    pub proof fn lemma_opening_monotone(self, t1: int, t2: int)
        requires
            self.wf(),
            self.phase matches BlinkPhase::Opening(s) && s <= t1,
            t1 <= t2,
        ensures
            self.value_at(t1) >= self.value_at(t2),
    {
        let s = self.phase->Opening_0 as int;
        let d = self.opening_ms as int;
        Self::lemma_ease_bounds(t1 - s, d);
        Self::lemma_ease_bounds(t2 - s, d);
        if t2 - s < d {
            Self::lemma_ease_monotone(t1 - s, t2 - s, d);
        }
    }

    /// Eased progress is a per-mille value for any elapsed time within the
    /// phase.
    proof fn lemma_ease_bounds(t: int, d: int)
        requires
            1 <= d,
            0 <= t,
        ensures
            t < d ==> 0 <= ease_pm(t, d) <= 1000,
    {
        if t < d {
            lemma_mul_inequality(t, d, 1000);
            lemma_div_is_ordered(t * 1000, d * 1000, d);
            lemma_div_multiples_vanish(1000, d);
            assert(d * 1000 == 1000 * d) by (nonlinear_arith);
            assert(0 <= t * 1000) by (nonlinear_arith)
                requires
                    0 <= t,
            ;
            vstd::arithmetic::div_mod::lemma_div_pos_is_pos(t * 1000, d);
            lemma_smoothstep_range(t * 1000 / d);
        }
    }

    /// Eased progress never decreases with elapsed time inside one phase.
    proof fn lemma_ease_monotone(t1: int, t2: int, d: int)
        requires
            1 <= d,
            0 <= t1 <= t2 <= d,
        ensures
            ease_pm(t1, d) <= ease_pm(t2, d),
    {
        lemma_div_is_ordered(t1 * 1000, t2 * 1000, d);
        lemma_mul_inequality(t2, d, 1000);
        lemma_div_is_ordered(t2 * 1000, d * 1000, d);
        lemma_div_multiples_vanish(1000, d);
        assert(d * 1000 == 1000 * d) by (nonlinear_arith);
        assert(0 <= t1 * 1000) by (nonlinear_arith)
            requires
                0 <= t1,
        ;
        vstd::arithmetic::div_mod::lemma_div_pos_is_pos(t1 * 1000, d);
        lemma_smoothstep_monotone(t1 * 1000 / d, t2 * 1000 / d);
    }
}

} // verus!
