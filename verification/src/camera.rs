//! The camera follower: each frame the camera moves a capped fraction of its
//! remaining distance toward the player, a first-order exponential smoothing
//! that approaches the player and never overshoots.

use vstd::prelude::*;
use vstd::arithmetic::div_mod::lemma_div_is_ordered;
use vstd::arithmetic::div_mod::lemma_div_multiples_vanish;
use vstd::arithmetic::div_mod::lemma_div_pos_is_pos;
use vstd::arithmetic::mul::lemma_mul_nonnegative;

use crate::motion::abs_val;
use crate::player::COORD_LIMIT_MILLI;
use crate::player::STEP_LIMIT_MILLI;
use crate::player::Vec2Milli;

verus! {

/// Largest coordinate magnitude the camera follower accepts, in milliunits:
/// the player's world limit plus the farthest one frame can move it.
pub const CAM_LIMIT_MILLI: i64 = COORD_LIMIT_MILLI + STEP_LIMIT_MILLI;

/// The camera's state: its 2D position in milliunits.
#[derive(Clone, Copy, Debug, PartialEq, Eq, Structural)]
pub struct Camera {
    pub position: Vec2Milli,
}

/// The fraction of the remaining gap the camera closes this frame, in
/// thousandths: `follow_rate * dt` in fixed point, capped at one whole gap so
/// the camera can never pass its target.
pub open spec fn follow_factor_milli(follow_rate_milli: u32, dt_ms: u32) -> int {
    let f = (follow_rate_milli * dt_ms) / 1000;
    if f > 1000 {
        1000
    } else {
        f
    }
}

/// One axis of the smoothing step: from `c`, move toward `t` by the gap times
/// `f` thousandths, the division truncating toward the starting point.
pub open spec fn axis_follow(c: int, t: int, f: int) -> int {
    if t >= c {
        c + ((t - c) * f) / 1000
    } else {
        c - ((c - t) * f) / 1000
    }
}

/// The whole per-frame transition of the camera follower: each axis moves
/// toward the target by the capped fraction of its remaining gap.
pub open spec fn camera_step_spec(
    pre: Camera,
    post: Camera,
    target: Vec2Milli,
    follow_rate_milli: u32,
    dt_ms: u32,
) -> bool {
    let f = follow_factor_milli(follow_rate_milli, dt_ms);
    &&& post.position.x == axis_follow(pre.position.x as int, target.x as int, f)
    &&& post.position.y == axis_follow(pre.position.y as int, target.y as int, f)
}

impl Camera {
    /// A well-formed camera: both coordinates within the follower's limit.
    pub open spec fn wf(self) -> bool {
        &&& abs_val(self.position.x as int) <= CAM_LIMIT_MILLI
        &&& abs_val(self.position.y as int) <= CAM_LIMIT_MILLI
    }

    /// A camera spawned at `position` — at startup, the player's position.
    pub fn new(position: Vec2Milli) -> (c: Camera)
        requires
            abs_val(position.x as int) <= CAM_LIMIT_MILLI,
            abs_val(position.y as int) <= CAM_LIMIT_MILLI,
        ensures
            c.wf(),
            c.position == position,
    {
        Camera { position }
    }

    /// Whether this camera is well-formed, so the frame update may run on it.
    /// The frame driver checks this each frame and skips the update when it
    /// fails, in the same way a missing camera entity skips the frame.
    pub fn is_well_formed(&self) -> (b: bool)
        ensures
            b == self.wf(),
    {
        self.position.x <= CAM_LIMIT_MILLI && self.position.x >= -CAM_LIMIT_MILLI
            && self.position.y <= CAM_LIMIT_MILLI && self.position.y >= -CAM_LIMIT_MILLI
    }
}

/// The division that truncates the smoothing step keeps it between zero and
/// the whole gap, and makes it at least one milliunit while `gap * f` reaches
/// a whole thousandth.
proof fn lemma_follow_step_bounds(gap: int, f: int)
    requires
        0 <= gap,
        0 <= f <= 1000,
    ensures
        0 <= (gap * f) / 1000 <= gap,
        gap * f >= 1000 ==> 1 <= (gap * f) / 1000,
{
    lemma_mul_nonnegative(gap, f);
    lemma_div_pos_is_pos(gap * f, 1000);
    assert(gap * f <= gap * 1000) by (nonlinear_arith)
        requires
            0 <= gap,
            f <= 1000,
    ;
    lemma_div_is_ordered(gap * f, gap * 1000, 1000);
    lemma_div_multiples_vanish(gap, 1000);
    assert(gap * 1000 == 1000 * gap);
    if gap * f >= 1000 {
        lemma_div_is_ordered(1000, gap * f, 1000);
    }
}

/// The capped follow factor always lies between zero and one whole gap.
proof fn lemma_factor_in_range(follow_rate_milli: u32, dt_ms: u32)
    ensures
        0 <= follow_factor_milli(follow_rate_milli, dt_ms) <= 1000,
{
    lemma_mul_nonnegative(follow_rate_milli as int, dt_ms as int);
    lemma_div_pos_is_pos(follow_rate_milli as int * dt_ms as int, 1000);
}

/// One axis of the smoothing step, executed on milliunit coordinates.
fn follow_axis(c: i64, t: i64, f: u64) -> (r: i64)
    requires
        f <= 1000,
        abs_val(c as int) <= CAM_LIMIT_MILLI,
        abs_val(t as int) <= CAM_LIMIT_MILLI,
    ensures
        r == axis_follow(c as int, t as int, f as int),
        t >= c ==> c <= r <= t,
        t < c ==> t <= r <= c,
{
    if t >= c {
        let gap: u64 = (t - c) as u64;
        proof {
            assert(gap as int * f as int <= 3_000_000_000_000_000) by (nonlinear_arith)
                requires
                    gap <= 2_120_000_000_000,
                    f <= 1000,
            ;
            lemma_follow_step_bounds(gap as int, f as int);
        }
        let step: u64 = gap * f / 1000;
        c + (step as i64)
    } else {
        let gap: u64 = (c - t) as u64;
        proof {
            assert(gap as int * f as int <= 3_000_000_000_000_000) by (nonlinear_arith)
                requires
                    gap <= 2_120_000_000_000,
                    f <= 1000,
            ;
            lemma_follow_step_bounds(gap as int, f as int);
        }
        let step: u64 = gap * f / 1000;
        c - (step as i64)
    }
}

/// Runs one frame of the camera follower: the camera keeps its position plus
/// the remaining gap to the target scaled by `follow_rate * dt`, capped at
/// the whole gap. The target is the player's position, read after the player
/// update of the same frame.
pub fn update_camera(cam: &mut Camera, target: Vec2Milli, follow_rate_milli: u32, dt_ms: u32)
    requires
        old(cam).wf(),
        abs_val(target.x as int) <= CAM_LIMIT_MILLI,
        abs_val(target.y as int) <= CAM_LIMIT_MILLI,
    ensures
        camera_step_spec(*old(cam), *final(cam), target, follow_rate_milli, dt_ms),
        final(cam).wf(),
{
    proof {
        assert(follow_rate_milli as int * dt_ms as int <= 0xFFFF_FFFF * 0xFFFF_FFFF)
            by (nonlinear_arith)
            requires
                follow_rate_milli <= 0xFFFF_FFFFu64,
                dt_ms <= 0xFFFF_FFFFu64,
        ;
    }
    let prod: u64 = (follow_rate_milli as u64) * (dt_ms as u64);
    let f0: u64 = prod / 1000;
    let f: u64 = if f0 > 1000 {
        1000
    } else {
        f0
    };
    cam.position.x = follow_axis(cam.position.x, target.x, f);
    cam.position.y = follow_axis(cam.position.y, target.y, f);
}

/// The camera follower never overshoots and loses no ground: on each axis the
/// new position stays between the old position and the target, the distance
/// to the target never grows, and it strictly shrinks as long as the gap
/// times the follow factor amounts to at least one milliunit. The cap on the
/// factor makes this hold for every follow rate and frame delta.
pub proof fn lemma_camera_never_overshoots(
    pre: Camera,
    post: Camera,
    target: Vec2Milli,
    follow_rate_milli: u32,
    dt_ms: u32,
)
    requires
        camera_step_spec(pre, post, target, follow_rate_milli, dt_ms),
    ensures
        abs_val(target.x - post.position.x) <= abs_val(target.x - pre.position.x),
        abs_val(target.y - post.position.y) <= abs_val(target.y - pre.position.y),
        target.x >= pre.position.x ==> pre.position.x <= post.position.x <= target.x,
        target.x < pre.position.x ==> target.x <= post.position.x <= pre.position.x,
        target.y >= pre.position.y ==> pre.position.y <= post.position.y <= target.y,
        target.y < pre.position.y ==> target.y <= post.position.y <= pre.position.y,
        abs_val(target.x - pre.position.x) * follow_factor_milli(follow_rate_milli, dt_ms)
            >= 1000 ==> abs_val(target.x - post.position.x) < abs_val(
            target.x - pre.position.x,
        ),
        abs_val(target.y - pre.position.y) * follow_factor_milli(follow_rate_milli, dt_ms)
            >= 1000 ==> abs_val(target.y - post.position.y) < abs_val(
            target.y - pre.position.y,
        ),
{
    let f = follow_factor_milli(follow_rate_milli, dt_ms);
    lemma_factor_in_range(follow_rate_milli, dt_ms);
    lemma_follow_step_bounds(abs_val(target.x - pre.position.x), f);
    lemma_follow_step_bounds(abs_val(target.y - pre.position.y), f);
}

} // verus!
