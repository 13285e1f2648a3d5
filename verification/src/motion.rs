use vstd::prelude::*;
use crate::palette::Color;
use crate::units::{DIR_SCALE, THRESH_CAP, VEL_MAX};

verus! {

/// A two-dimensional vector in fixed-point position subunits.
#[derive(Clone, Copy, PartialEq, Eq, Structural, Debug)]
pub struct Vec2 {
    pub x: i64,
    pub y: i64,
}

/// One animated point sprite: its current position and its colour. The
/// colour is assigned at spawn time and never changes; the position is
/// rewritten on every tick.
#[derive(Clone, Copy, PartialEq, Eq, Structural, Debug)]
pub struct Particle {
    pub pos: Vec2,
    pub color: Color,
}

/// Squared distance of `(x, y)` from the origin.
pub open spec fn dist_sq(x: int, y: int) -> int {
    x * x + y * y
}

/// One component of the per-tick displacement: the direction component
/// scaled by the particle's velocity and the global sign.
pub open spec fn step_component(dir: int, vel: int, sign: int) -> int {
    dir * vel * sign
}

/// Where one tick of the motion rule sends a particle that sits at
/// `(px, py)`: it first advances by direction times velocity times sign,
/// then is recycled to the origin exactly when the squared distance of the
/// advanced point exceeds `threshold`.
pub open spec fn tick_pos(
    px: int,
    py: int,
    dir: Vec2,
    vel: int,
    sign: int,
    threshold: int,
) -> (int, int) {
    let mx = px + step_component(dir.x as int, vel, sign);
    let my = py + step_component(dir.y as int, vel, sign);
    if dist_sq(mx, my) > threshold {
        (0, 0)
    } else {
        (mx, my)
    }
}

/// A direction vector is valid when each component is at most one unit
/// long (unit vectors scaled by `DIR_SCALE` always are).
pub open spec fn valid_dir(dir: Vec2) -> bool {
    -DIR_SCALE <= dir.x <= DIR_SCALE && -DIR_SCALE <= dir.y <= DIR_SCALE
}

/// Advances one particle by one tick: move along `dir` scaled by `vel` and
/// `sign`, then recycle to the origin if the squared distance from the
/// origin now exceeds `threshold`. The colour is untouched.
pub fn step_particle(p: &mut Particle, dir: Vec2, vel: i64, sign: i64, threshold: i64)
    requires
        valid_dir(dir),
        0 <= vel <= VEL_MAX,
        sign == 1 || sign == -1,
        0 <= threshold <= THRESH_CAP,
        dist_sq(old(p).pos.x as int, old(p).pos.y as int) <= THRESH_CAP,
    ensures
        final(p).color == old(p).color,
        ({
            let t = tick_pos(
                old(p).pos.x as int,
                old(p).pos.y as int,
                dir,
                vel as int,
                sign as int,
                threshold as int,
            );
            final(p).pos.x == t.0 && final(p).pos.y == t.1
        }),
        dist_sq(final(p).pos.x as int, final(p).pos.y as int) <= threshold,
{
    let px: i64 = p.pos.x;
    let py: i64 = p.pos.y;
    assert(-5_000 <= dir.x <= 5_000 && -5_000 <= dir.y <= 5_000 && vel <= 1_024);
    assert(-5_120_000 <= dir.x * vel <= 5_120_000) by (nonlinear_arith)
        requires
            -5_000 <= dir.x <= 5_000,
            0 <= vel <= 1_024,
    ;
    assert(-5_120_000 <= dir.y * vel <= 5_120_000) by (nonlinear_arith)
        requires
            -5_000 <= dir.y <= 5_000,
            0 <= vel <= 1_024,
    ;
    assert(-5_120_000 <= dir.x * vel * sign <= 5_120_000) by (nonlinear_arith)
        requires
            -5_120_000 <= dir.x * vel <= 5_120_000,
            sign == 1 || sign == -1,
    ;
    assert(-5_120_000 <= dir.y * vel * sign <= 5_120_000) by (nonlinear_arith)
        requires
            -5_120_000 <= dir.y * vel <= 5_120_000,
            sign == 1 || sign == -1,
    ;
    let sx: i64 = dir.x * vel * sign;
    let sy: i64 = dir.y * vel * sign;
    assert(px * px + py * py <= 32_000_000_000_000);
    assert(-5_700_000 <= px <= 5_700_000 && -5_700_000 <= py <= 5_700_000) by (nonlinear_arith)
        requires
            px * px + py * py <= 32_000_000_000_000,
    ;
    let mx: i64 = px + sx;
    let my: i64 = py + sy;
    assert(0 <= mx * mx <= 121_000_000_000_000 && 0 <= my * my <= 121_000_000_000_000)
        by (nonlinear_arith)
        requires
            -11_000_000 <= mx <= 11_000_000,
            -11_000_000 <= my <= 11_000_000,
    ;
    let d: i64 = mx * mx + my * my;
    if d > threshold {
        p.pos.x = 0;
        p.pos.y = 0;
    } else {
        p.pos.x = mx;
        p.pos.y = my;
    }
}

/// Recycling is exact: after the advance of one tick, the particle stands
/// at the origin when the advanced point's squared distance exceeds the
/// threshold, and exactly at the advanced point (never reset) otherwise.
pub proof fn lemma_recycle_exact(px: int, py: int, dir: Vec2, vel: int, sign: int, threshold: int)
    ensures
        ({
            let mx = px + step_component(dir.x as int, vel, sign);
            let my = py + step_component(dir.y as int, vel, sign);
            &&& dist_sq(mx, my) > threshold ==> tick_pos(px, py, dir, vel, sign, threshold) == (0int, 0int)
            &&& dist_sq(mx, my) <= threshold ==> tick_pos(px, py, dir, vel, sign, threshold) == (mx, my)
        }),
{
}

/// The position reached after `k` ticks of the motion rule, starting from
/// `(px, py)` with a fixed direction, velocity, sign and threshold.
pub open spec fn run_pos(
    px: int,
    py: int,
    dir: Vec2,
    vel: int,
    sign: int,
    threshold: int,
    k: nat,
) -> (int, int)
    decreases k,
{
    if k == 0 {
        (px, py)
    } else {
        let prev = run_pos(px, py, dir, vel, sign, threshold, (k - 1) as nat);
        tick_pos(prev.0, prev.1, dir, vel, sign, threshold)
    }
}

/// The point the motion rule would reach after `j` ticks if recycling
/// never struck: the start plus `j` times the per-tick displacement.
pub open spec fn ray_point(px: int, py: int, dir: Vec2, vel: int, sign: int, j: int) -> (
    int,
    int,
) {
    (
        px + j * step_component(dir.x as int, vel, sign),
        py + j * step_component(dir.y as int, vel, sign),
    )
}

/// Whether the `j`-th point of the ray still lies within the recycling
/// threshold.
pub open spec fn within_threshold(
    px: int,
    py: int,
    dir: Vec2,
    vel: int,
    sign: int,
    threshold: int,
    j: int,
) -> bool {
    dist_sq(ray_point(px, py, dir, vel, sign, j).0, ray_point(px, py, dir, vel, sign, j).1)
        <= threshold
}

/// The update is a pure function of the number of elapsed ticks: real time
/// never enters the rule, and as long as the trajectory stays within the
/// recycling threshold, the position after `k` ticks is exactly the initial
/// position plus `k` times the per-tick displacement. In particular, after
/// zero ticks the position equals the initial position.
pub proof fn lemma_position_closed_form(
    px: int,
    py: int,
    dir: Vec2,
    vel: int,
    sign: int,
    threshold: int,
    k: nat,
)
    requires
        forall|j: int|
            1 <= j <= k ==> #[trigger] within_threshold(px, py, dir, vel, sign, threshold, j),
    ensures
        run_pos(px, py, dir, vel, sign, threshold, k) == ray_point(
            px,
            py,
            dir,
            vel,
            sign,
            k as int,
        ),
    decreases k,
{
    let sx = step_component(dir.x as int, vel, sign);
    let sy = step_component(dir.y as int, vel, sign);
    if k == 0 {
        assert(px + 0 * sx == px);
        assert(py + 0 * sy == py);
    } else {
        lemma_position_closed_form(px, py, dir, vel, sign, threshold, (k - 1) as nat);
        assert((k - 1) * sx + sx == k * sx) by (nonlinear_arith);
        assert((k - 1) * sy + sy == k * sy) by (nonlinear_arith);
        assert(within_threshold(px, py, dir, vel, sign, threshold, k as int));
        assert(dist_sq(px + k * sx, py + k * sy) <= threshold);
    }
}

} // verus!
