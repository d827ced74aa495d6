//! Gaze smoothing: a damped second-order follower for the raw target point,
//! and the polar conversion that turns the smoothed point into a pupil
//! offset whose magnitude can never leave the panel's render bounds.
//!
//! Coordinates are virtual-canvas units held in `i64`.

use vstd::prelude::*;
use vstd::arithmetic::div_mod::{
    lemma_div_is_ordered, lemma_div_multiples_vanish, lemma_fundamental_div_mod, lemma_mod_bound,
};
use vstd::arithmetic::mul::lemma_mul_inequality;
use crate::settings::COORD_LIMIT;

verus! {

/// Largest magnitude the smoothed position is allowed to reach; the
/// smoother clamps here so its state can never overflow, far beyond any
/// real canvas.
pub const POS_LIMIT: i64 = 1_073_741_824;

/// Largest magnitude the stored velocity can reach.
pub const VEL_LIMIT: i64 = POS_LIMIT + COORD_LIMIT;

/// Largest pupil travel radius a panel may configure.
pub const MAX_RADIUS_LIMIT: u32 = 65536;

/// `v` scaled by the nonnegative fraction `num / den`, rounding the
/// magnitude down.
pub open spec fn scale_frac(v: int, num: int, den: int) -> int {
    if v >= 0 {
        v * num / den
    } else {
        -((-v) * num / den)
    }
}

/// `v` clamped into `[lo, hi]`.
pub open spec fn clamp_i(v: int, lo: int, hi: int) -> int {
    if v < lo {
        lo
    } else if v > hi {
        hi
    } else {
        v
    }
}

/// `d` is the ceiling square root of `n`: the least `d` with `n <= d * d`.
pub open spec fn is_sqrt_ceil(n: int, d: int) -> bool {
    if n <= 0 {
        d == 0
    } else {
        &&& 1 <= d
        &&& n <= d * d
        &&& (d - 1) * (d - 1) < n
    }
}

/// The ceiling square root itself.
pub open spec fn sqrt_ceil(n: int) -> int {
    choose|d: int| is_sqrt_ceil(n, d)
}

/// Only one integer is the ceiling square root of `n`.
pub proof fn lemma_sqrt_ceil_unique(n: int, d1: int, d2: int)
    requires
        is_sqrt_ceil(n, d1),
        is_sqrt_ceil(n, d2),
    ensures
        d1 == d2,
{
    if n > 0 {
        assert(d1 == d2) by (nonlinear_arith)
            requires
                1 <= d1,
                1 <= d2,
                n <= d1 * d1,
                n <= d2 * d2,
                (d1 - 1) * (d1 - 1) < n,
                (d2 - 1) * (d2 - 1) < n,
        ;
    }
}

/// Ceiling integer square root, by bisection.
pub fn isqrt_ceil(n: u64) -> (r: u64)
    ensures
        is_sqrt_ceil(n as int, r as int),
        r == sqrt_ceil(n as int),
        r <= 4294967296,
{
    if n == 0 {
        proof {
            assert(is_sqrt_ceil(0, 0));
            lemma_sqrt_ceil_unique(0, sqrt_ceil(0), 0);
        }
        return 0;
    }
    let m: u128 = n as u128;
    let mut lo: u128 = 0;
    let mut hi: u128 = 4294967296;
    proof {
        assert(4294967296u128 * 4294967296u128 > u64::MAX) by (nonlinear_arith);
    }
    while lo + 1 < hi
        invariant
            lo < hi,
            hi <= 4294967296,
            lo * lo < m,
            m <= hi * hi,
            1 <= m,
        decreases hi - lo,
    {
        let mid: u128 = lo + (hi - lo) / 2;
        proof {
            assert(mid * mid <= 4294967296u128 * 4294967296u128) by (nonlinear_arith)
                requires
                    0 <= mid <= 4294967296,
            ;
        }
        if mid * mid >= m {
            hi = mid;
        } else {
            lo = mid;
        }
    }
    let r: u64 = hi as u64;
    proof {
        assert((hi - 1) * (hi - 1) == lo * lo) by (nonlinear_arith)
            requires
                hi == lo + 1,
        ;
        assert(is_sqrt_ceil(n as int, r as int));
        lemma_sqrt_ceil_unique(n as int, sqrt_ceil(n as int), r as int);
    }
    r
}

/// Damped follower for the gaze target of one panel. Each tick derives a
/// new velocity from the distance to the target, an acceleration from the
/// change in velocity, and moves the position by the acceleration scaled
/// with the damping gain.
pub struct GazeSmoother {
    /// Smoothed position, x.
    pub pos_x: i64,
    /// Smoothed position, y.
    pub pos_y: i64,
    /// Velocity stored by the previous tick, x.
    pub vel_x: i64,
    /// Velocity stored by the previous tick, y.
    pub vel_y: i64,
    /// Numerator of the damping gain.
    pub gain_num: i64,
    /// Denominator of the damping gain; the gain is below one.
    pub gain_den: i64,
}

impl GazeSmoother {
    /// Gain is a fraction in `[0, 1]` with a small denominator, and the
    /// smoothing state stays inside its clamp bounds.
    pub open spec fn wf(self) -> bool {
        &&& 0 <= self.gain_num <= self.gain_den
        &&& 1 <= self.gain_den <= 1000
        &&& -POS_LIMIT <= self.pos_x <= POS_LIMIT
        &&& -POS_LIMIT <= self.pos_y <= POS_LIMIT
        &&& -VEL_LIMIT <= self.vel_x <= VEL_LIMIT
        &&& -VEL_LIMIT <= self.vel_y <= VEL_LIMIT
    }

    /// A smoother at rest at the origin.
    pub fn new(gain_num: i64, gain_den: i64) -> (g: GazeSmoother)
        requires
            0 <= gain_num <= gain_den,
            1 <= gain_den <= 1000,
        ensures
            g.wf(),
            g.pos_x == 0,
            g.pos_y == 0,
            g.vel_x == 0,
            g.vel_y == 0,
            g.gain_num == gain_num,
            g.gain_den == gain_den,
    {
        GazeSmoother { pos_x: 0, pos_y: 0, vel_x: 0, vel_y: 0, gain_num, gain_den }
    }

    /// The position the smoother moves to on one axis: old position plus
    /// the gain-scaled acceleration, clamped to the state bounds.
    pub open spec fn next_pos(pos: int, vel: int, target: int, num: int, den: int) -> int {
        clamp_i(pos + scale_frac(vel - (pos - target), num, den), -POS_LIMIT as int,
            POS_LIMIT as int)
    }

    /// The whole smoother state after one tick toward `(tx, ty)`.
    pub open spec fn stepped(self, tx: int, ty: int) -> GazeSmoother {
        GazeSmoother {
            pos_x: Self::next_pos(self.pos_x as int, self.vel_x as int, tx, self.gain_num as int,
                self.gain_den as int) as i64,
            pos_y: Self::next_pos(self.pos_y as int, self.vel_y as int, ty, self.gain_num as int,
                self.gain_den as int) as i64,
            vel_x: (self.pos_x - tx) as i64,
            vel_y: (self.pos_y - ty) as i64,
            gain_num: self.gain_num,
            gain_den: self.gain_den,
        }
    }

    /// Advances the smoother one tick toward the raw target.
    pub fn update(&mut self, target_x: i64, target_y: i64)
        requires
            old(self).wf(),
            -COORD_LIMIT <= target_x <= COORD_LIMIT,
            -COORD_LIMIT <= target_y <= COORD_LIMIT,
        ensures
            final(self).wf(),
            final(self).pos_x == Self::next_pos(old(self).pos_x as int, old(self).vel_x as int,
                target_x as int, old(self).gain_num as int, old(self).gain_den as int),
            final(self).pos_y == Self::next_pos(old(self).pos_y as int, old(self).vel_y as int,
                target_y as int, old(self).gain_num as int, old(self).gain_den as int),
            final(self).vel_x == old(self).pos_x - target_x,
            final(self).vel_y == old(self).pos_y - target_y,
            final(self).gain_num == old(self).gain_num,
            final(self).gain_den == old(self).gain_den,
            *final(self) == old(self).stepped(target_x as int, target_y as int),
    {
        let new_pos_x = Self::step_axis(self.pos_x, self.vel_x, target_x, self.gain_num,
            self.gain_den);
        let new_pos_y = Self::step_axis(self.pos_y, self.vel_y, target_y, self.gain_num,
            self.gain_den);
        self.vel_x = self.pos_x - target_x;
        self.vel_y = self.pos_y - target_y;
        self.pos_x = new_pos_x;
        self.pos_y = new_pos_y;
    }

    /// One axis of the damped step.
    fn step_axis(pos: i64, vel: i64, target: i64, num: i64, den: i64) -> (p: i64)
        requires
            -POS_LIMIT <= pos <= POS_LIMIT,
            -VEL_LIMIT <= vel <= VEL_LIMIT,
            -COORD_LIMIT <= target <= COORD_LIMIT,
            0 <= num <= den,
            1 <= den <= 1000,
        ensures
            p == Self::next_pos(pos as int, vel as int, target as int, num as int, den as int),
            -POS_LIMIT <= p <= POS_LIMIT,
    {
        let new_vel: i64 = pos - target;
        let acc: i64 = vel - new_vel;
        let delta: i64 = Self::scale_frac_exec(acc, num, den);
        let moved: i64 = pos + delta;
        if moved < -POS_LIMIT {
            -POS_LIMIT
        } else if moved > POS_LIMIT {
            POS_LIMIT
        } else {
            moved
        }
    }

    /// `scale_frac` on machine integers.
    fn scale_frac_exec(v: i64, num: i64, den: i64) -> (r: i64)
        requires
            -4 * VEL_LIMIT <= v <= 4 * VEL_LIMIT,
            0 <= num <= den,
            1 <= den <= 1000,
        ensures
            r == scale_frac(v as int, num as int, den as int),
            -4 * VEL_LIMIT <= r <= 4 * VEL_LIMIT,
    {
        let mag: u64 = if v >= 0 {
            v as u64
        } else {
            (-v) as u64
        };
        proof {
            assert(mag as int * num as int <= den as int * (4 * VEL_LIMIT as int))
                by (nonlinear_arith)
                requires
                    0 <= mag <= 4 * VEL_LIMIT as int,
                    0 <= num <= den,
            ;
            assert(den as int * (4 * VEL_LIMIT as int) <= 1000 * (4 * VEL_LIMIT as int))
                by (nonlinear_arith)
                requires
                    1 <= den <= 1000,
            ;
            assert(0 <= mag as int * num as int) by (nonlinear_arith)
                requires
                    0 <= mag,
                    0 <= num,
            ;
        }
        let scaled: u64 = mag * (num as u64) / (den as u64);
        proof {
            lemma_div_is_ordered(mag as int * num as int, den as int * (4 * VEL_LIMIT as int),
                den as int);
            lemma_div_multiples_vanish(4 * VEL_LIMIT as int, den as int);
            vstd::arithmetic::div_mod::lemma_div_pos_is_pos(mag as int * num as int, den as int);
        }
        if v >= 0 {
            scaled as i64
        } else {
            -(scaled as i64)
        }
    }
}

/// `v` rescaled by `r / d`, rounding the magnitude down.
pub open spec fn scale_to_radius(v: int, r: int, d: int) -> int {
    if v >= 0 {
        v * r / d
    } else {
        -((-v) * r / d)
    }
}

/// Pupil travel radius for a smoothed point at ceiling-distance `d` from
/// the panel center: proportional to the distance over the reference span,
/// clamped to the configured maximum.
pub open spec fn clamped_radius(max_radius: int, d: int, span: int) -> int {
    let raw = max_radius * d / span;
    if raw > max_radius {
        max_radius
    } else {
        raw
    }
}

/// The pupil offset `render_offset` computes, as a pure function of the
/// smoothed position, the panel center, the reference span and the maximum
/// radius.
pub open spec fn render_offset_spec(pos_x: int, pos_y: int, center_x: int, center_y: int,
    span: int, max_radius: int) -> (int, int) {
    let dx = pos_x - center_x;
    let dy = pos_y - center_y;
    let d = sqrt_ceil(dx * dx + dy * dy);
    if d == 0 {
        (0, 0)
    } else {
        let r = clamped_radius(max_radius, d, span);
        (scale_to_radius(dx, r, d), scale_to_radius(dy, r, d))
    }
}

/// Converts the smoothed gaze position into the pupil's render offset for a
/// panel centered at `(center_x, center_y)`: the offset points from the
/// center toward the smoothed position, its length grows with the distance
/// over `span`, and it is clamped so its magnitude never exceeds
/// `max_radius` however far away the target is.
pub fn render_offset(pos_x: i64, pos_y: i64, center_x: i64, center_y: i64, span: u32,
    max_radius: u32) -> (off: (i64, i64))
    requires
        -POS_LIMIT <= pos_x <= POS_LIMIT,
        -POS_LIMIT <= pos_y <= POS_LIMIT,
        -COORD_LIMIT <= center_x <= COORD_LIMIT,
        -COORD_LIMIT <= center_y <= COORD_LIMIT,
        1 <= span,
        max_radius <= MAX_RADIUS_LIMIT,
    ensures
        (off.0 as int, off.1 as int) == render_offset_spec(pos_x as int, pos_y as int,
            center_x as int, center_y as int, span as int, max_radius as int),
        off.0 * off.0 + off.1 * off.1 <= max_radius * max_radius,
{
    let dx: i64 = pos_x - center_x;
    let dy: i64 = pos_y - center_y;
    let ax: u64 = if dx >= 0 {
        dx as u64
    } else {
        (-dx) as u64
    };
    let ay: u64 = if dy >= 0 {
        dy as u64
    } else {
        (-dy) as u64
    };
    proof {
        assert(ax * ax + ay * ay <= u64::MAX) by (nonlinear_arith)
            requires
                0 <= ax <= 2 * POS_LIMIT as int,
                0 <= ay <= 2 * POS_LIMIT as int,
        ;
    }
    let dist2: u64 = ax * ax + ay * ay;
    proof {
        assert(ax as int * ax as int == dx as int * dx as int) by (nonlinear_arith)
            requires
                ax == (if dx >= 0 { dx as int } else { -(dx as int) }),
        ;
        assert(ay as int * ay as int == dy as int * dy as int) by (nonlinear_arith)
            requires
                ay == (if dy >= 0 { dy as int } else { -(dy as int) }),
        ;
    }
    let d: u64 = isqrt_ceil(dist2);
    if d == 0 {
        proof {
            assert(0 <= max_radius as int * max_radius as int) by (nonlinear_arith);
        }
        return (0, 0);
    }
    proof {
        assert((max_radius as int) * (d as int) <= 65536 * 4294967296) by (nonlinear_arith)
            requires
                0 <= max_radius as int <= 65536,
                0 <= d as int <= 4294967296,
        ;
        assert(0 <= (max_radius as int) * (d as int)) by (nonlinear_arith)
            requires
                0 <= max_radius as int,
                0 <= d as int,
        ;
    }
    let raw: u64 = (max_radius as u64) * d / (span as u64);
    proof {
        vstd::arithmetic::div_mod::lemma_div_pos_is_pos(
            (max_radius as int) * (d as int), span as int);
    }
    let r: u64 = if raw > max_radius as u64 {
        max_radius as u64
    } else {
        raw
    };
    proof {
        lemma_offset_math(ax as int, ay as int, d as int, r as int, max_radius as int);
    }
    let qx: u64 = ax * r / d;
    let qy: u64 = ay * r / d;
    let ox: i64 = if dx >= 0 {
        qx as i64
    } else {
        -(qx as i64)
    };
    let oy: i64 = if dy >= 0 {
        qy as i64
    } else {
        -(qy as i64)
    };
    proof {
        assert(ox as int * ox as int == qx as int * qx as int) by (nonlinear_arith)
            requires
                ox as int == qx as int || ox as int == -(qx as int),
        ;
        assert(oy as int * oy as int == qy as int * qy as int) by (nonlinear_arith)
            requires
                oy as int == qy as int || oy as int == -(qy as int),
        ;
    }
    (ox, oy)
}

/// Core bound of the polar conversion: scaling a vector of ceiling-length
/// `d` down to radius `r <= max_radius` keeps the squared magnitude of the
/// rounded result at or below `max_radius * max_radius`.
proof fn lemma_offset_math(ax: int, ay: int, d: int, r: int, max_radius: int)
    requires
        0 <= ax,
        0 <= ay,
        0 <= r <= max_radius,
        max_radius <= MAX_RADIUS_LIMIT,
        1 <= d,
        ax * ax + ay * ay <= d * d,
        ax <= 2 * POS_LIMIT as int,
        ay <= 2 * POS_LIMIT as int,
    ensures
        0 <= ax * r <= 2 * POS_LIMIT as int * MAX_RADIUS_LIMIT as int,
        0 <= ay * r <= 2 * POS_LIMIT as int * MAX_RADIUS_LIMIT as int,
        0 <= ax * r / d <= ax * r,
        0 <= ay * r / d <= ay * r,
        (ax * r / d) * (ax * r / d) + (ay * r / d) * (ay * r / d) <= max_radius * max_radius,
{
    let qx = ax * r / d;
    let qy = ay * r / d;
    lemma_mul_inequality(ax, 2 * POS_LIMIT as int, r);
    lemma_mul_inequality(ay, 2 * POS_LIMIT as int, r);
    lemma_mul_inequality(r, MAX_RADIUS_LIMIT as int, 2 * POS_LIMIT as int);
    assert(0 <= ax * r && 0 <= ay * r) by (nonlinear_arith)
        requires
            0 <= ax,
            0 <= ay,
            0 <= r,
    ;
    vstd::arithmetic::div_mod::lemma_div_pos_is_pos(ax * r, d);
    vstd::arithmetic::div_mod::lemma_div_pos_is_pos(ay * r, d);
    lemma_fundamental_div_mod(ax * r, d);
    lemma_fundamental_div_mod(ay * r, d);
    lemma_mod_bound(ax * r, d);
    lemma_mod_bound(ay * r, d);
    assert(qx * d <= ax * r);
    assert(qy * d <= ay * r);
    assert(qx <= qx * d && qy <= qy * d) by (nonlinear_arith)
        requires
            0 <= qx,
            0 <= qy,
            1 <= d,
    ;
    assert(d * d * (qx * qx + qy * qy) <= (ax * ax + ay * ay) * (r * r)) by (nonlinear_arith)
        requires
            0 <= qx,
            0 <= qy,
            0 <= ax,
            0 <= ay,
            0 <= r,
            1 <= d,
            qx * d <= ax * r,
            qy * d <= ay * r,
    ;
    assert((ax * ax + ay * ay) * (r * r) <= (d * d) * (r * r)) by (nonlinear_arith)
        requires
            ax * ax + ay * ay <= d * d,
            0 <= r,
    ;
    assert(qx * qx + qy * qy <= r * r) by (nonlinear_arith)
        requires
            1 <= d,
            d * d * (qx * qx + qy * qy) <= (d * d) * (r * r),
    ;
    assert(r * r <= max_radius * max_radius) by (nonlinear_arith)
        requires
            0 <= r <= max_radius,
    ;
}

} // verus!
