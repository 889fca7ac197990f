//! The player controller: per frame it turns the held movement keys into a
//! motion mode, a facing, a position update and, when needed, an animation
//! switch request for the renderer.

use vstd::prelude::*;
use vstd::arithmetic::div_mod::lemma_div_is_ordered;
use vstd::arithmetic::div_mod::lemma_div_multiples_vanish;

use crate::catalog::AnimationCatalog;
use crate::catalog::AnimationDef;
use crate::catalog::AnimationKey;
use crate::motion::Direction;
use crate::motion::InputState;
use crate::motion::MotionMode;
use crate::motion::abs_val;
use crate::motion::facing_from_raw;
use crate::motion::mode_from_raw;
use crate::motion::raw_direction;
use crate::motion::raw_x;
use crate::motion::raw_y;

verus! {

/// Largest player speed the controller accepts, in milliunits per second
/// (100 000 units per second). Keeps one frame's step arithmetic in range.
pub const SPEED_LIMIT_MILLI: u32 = 100_000_000;

/// Largest frame delta the controller accepts, in milliseconds (ten minutes).
pub const DT_LIMIT_MS: u32 = 600_000;

/// Largest coordinate magnitude of a well-formed position, in milliunits
/// (a billion units from the origin on each axis).
pub const COORD_LIMIT_MILLI: i64 = 1_000_000_000_000;

/// An upper bound on the distance one frame can move the player on one axis,
/// in milliunits: `SPEED_LIMIT_MILLI * DT_LIMIT_MS / 1000`.
pub const STEP_LIMIT_MILLI: i64 = 60_000_000_000;

/// Numerator of the diagonal scale in thousandths: moving on both axes at
/// once scales each axis by 707/1000, the fixed-point take on one over the
/// square root of two, so the combined step keeps the configured speed.
pub const DIAG_SCALE_MILLI: u64 = 707;

/// A 2D point or displacement in milliunits.
#[derive(Clone, Copy, Debug, PartialEq, Eq, Structural)]
pub struct Vec2Milli {
    pub x: i64,
    pub y: i64,
}

/// The player's per-frame state: where it is, how fast it moves, which way it
/// faces, whether it is moving, which animation plays, and whether the sprite
/// is horizontally mirrored (rendered with a negative horizontal scale).
#[derive(Clone, Copy, Debug, PartialEq, Eq, Structural)]
pub struct Player {
    pub position: Vec2Milli,
    pub speed_milli: u32,
    pub facing: Direction,
    pub mode: MotionMode,
    pub current_animation: AnimationKey,
    pub mirrored: bool,
}

/// How far one frame moves the player along one active axis, in milliunits.
/// A diagonal frame scales the cardinal step `speed * dt / 1000` by 707/1000,
/// the fixed-point normalization of the raw diagonal to unit length.
pub open spec fn axis_step_milli(speed_milli: u32, dt_ms: u32, diagonal: bool) -> int {
    if diagonal {
        (speed_milli * dt_ms * DIAG_SCALE_MILLI) / 1_000_000
    } else {
        (speed_milli * dt_ms) / 1000
    }
}

/// The animation the state machine wants after reading `input`: the new mode
/// combined with the new facing.
pub open spec fn desired_key(pre: Player, input: InputState) -> AnimationKey {
    AnimationKey {
        mode: mode_from_raw(raw_x(input), raw_y(input)),
        direction: facing_from_raw(raw_x(input), raw_y(input), pre.facing),
    }
}

/// The whole per-frame transition of the player controller, relating the
/// state before the frame to the state after it and to the switch request
/// handed back for the renderer:
/// - the mode comes from the raw key vector, the facing from the
///   dominant-axis rule (idle keeps the previous facing);
/// - each axis moves by its raw component times the frame step, so an idle
///   frame moves nothing and opposing keys cancel exactly;
/// - the animation switches only when the desired key is registered and
///   differs from the current one; only then is the mirror flag rewritten,
///   to whether the new facing is Left.
pub open spec fn player_step_spec(
    pre: Player,
    post: Player,
    catalog: Map<AnimationKey, AnimationDef>,
    input: InputState,
    dt_ms: u32,
    switch: Option<AnimationKey>,
) -> bool {
    let x = raw_x(input);
    let y = raw_y(input);
    let step = axis_step_milli(pre.speed_milli, dt_ms, x != 0 && y != 0);
    let desired = desired_key(pre, input);
    &&& post.speed_milli == pre.speed_milli
    &&& post.mode == mode_from_raw(x, y)
    &&& post.facing == facing_from_raw(x, y, pre.facing)
    &&& post.position.x == if x > 0 {
        pre.position.x + step
    } else if x < 0 {
        pre.position.x - step
    } else {
        pre.position.x as int
    }
    &&& post.position.y == if y > 0 {
        pre.position.y + step
    } else if y < 0 {
        pre.position.y - step
    } else {
        pre.position.y as int
    }
    &&& if catalog.contains_key(desired) && desired != pre.current_animation {
        &&& post.current_animation == desired
        &&& post.mirrored == (post.facing == Direction::Left)
        &&& switch == Some(desired)
    } else {
        &&& post.current_animation == pre.current_animation
        &&& post.mirrored == pre.mirrored
        &&& switch == None::<AnimationKey>
    }
}

impl Player {
    /// A well-formed player: speed within the accepted limit and the position
    /// within the world coordinate limit, so one frame's arithmetic fits.
    pub open spec fn wf(self) -> bool {
        &&& self.speed_milli <= SPEED_LIMIT_MILLI
        &&& abs_val(self.position.x as int) <= COORD_LIMIT_MILLI
        &&& abs_val(self.position.y as int) <= COORD_LIMIT_MILLI
    }

    /// A freshly spawned player: at `position`, idle, facing down with the
    /// matching idle animation, not mirrored.
    pub fn new(position: Vec2Milli, speed_milli: u32) -> (p: Player)
        requires
            speed_milli <= SPEED_LIMIT_MILLI,
            abs_val(position.x as int) <= COORD_LIMIT_MILLI,
            abs_val(position.y as int) <= COORD_LIMIT_MILLI,
        ensures
            p.wf(),
            p.position == position,
            p.speed_milli == speed_milli,
            p.facing == Direction::Down,
            p.mode == MotionMode::Idle,
            p.current_animation == (AnimationKey {
                mode: MotionMode::Idle,
                direction: Direction::Down,
            }),
            !p.mirrored,
    {
        Player {
            position,
            speed_milli,
            facing: Direction::Down,
            mode: MotionMode::Idle,
            current_animation: AnimationKey {
                mode: MotionMode::Idle,
                direction: Direction::Down,
            },
            mirrored: false,
        }
    }

    /// Whether this player is well-formed, so the frame update may run on it.
    /// The frame driver checks this each frame and skips the update when it
    /// fails, in the same way a missing player entity skips the frame.
    pub fn is_well_formed(&self) -> (b: bool)
        ensures
            b == self.wf(),
    {
        self.speed_milli <= SPEED_LIMIT_MILLI && self.position.x <= COORD_LIMIT_MILLI
            && self.position.x >= -COORD_LIMIT_MILLI && self.position.y <= COORD_LIMIT_MILLI
            && self.position.y >= -COORD_LIMIT_MILLI
    }
}

/// Runs one frame of the player state machine on the held keys and the frame
/// delta: derives mode and facing, moves the position, and requests an
/// animation switch exactly when the desired registered animation differs
/// from the current one. Returns the key switched to, if any; a desired key
/// missing from the catalog is tolerated by leaving the animation untouched.
pub fn update_player(
    p: &mut Player,
    catalog: &AnimationCatalog,
    input: InputState,
    dt_ms: u32,
) -> (switch: Option<AnimationKey>)
    requires
        old(p).wf(),
        dt_ms <= DT_LIMIT_MS,
    ensures
        player_step_spec(*old(p), *final(p), catalog@, input, dt_ms, switch),
        abs_val(final(p).position.x as int) <= COORD_LIMIT_MILLI + STEP_LIMIT_MILLI,
        abs_val(final(p).position.y as int) <= COORD_LIMIT_MILLI + STEP_LIMIT_MILLI,
{
    let speed = p.speed_milli;
    let (rx, ry) = raw_direction(input);
    if rx == 0 && ry == 0 {
        p.mode = MotionMode::Idle;
    } else {
        p.mode = MotionMode::Running;
        let ax: i64 = if rx < 0 { -rx } else { rx };
        let ay: i64 = if ry < 0 { -ry } else { ry };
        p.facing = if ax > ay {
            if rx > 0 { Direction::Right } else { Direction::Left }
        } else {
            if ry > 0 { Direction::Up } else { Direction::Down }
        };
        let diagonal: bool = rx != 0 && ry != 0;
        proof {
            assert(speed as int * dt_ms as int <= 60_000_000_000_000) by (nonlinear_arith)
                requires
                    speed <= 100_000_000,
                    dt_ms <= 600_000,
            ;
        }
        let prod: u64 = (speed as u64) * (dt_ms as u64);
        let step64: u64 = if diagonal {
            proof {
                lemma_div_is_ordered((prod * 707) as int, 42_420_000_000_000_000, 1_000_000);
                lemma_div_multiples_vanish(42_420_000_000, 1_000_000);
            }
            prod * 707 / 1_000_000
        } else {
            proof {
                lemma_div_is_ordered(prod as int, 60_000_000_000_000, 1000);
                lemma_div_multiples_vanish(60_000_000_000, 1000);
            }
            prod / 1000
        };
        let step: i64 = step64 as i64;
        if rx > 0 {
            p.position.x = p.position.x + step;
        } else if rx < 0 {
            p.position.x = p.position.x - step;
        }
        if ry > 0 {
            p.position.y = p.position.y + step;
        } else if ry < 0 {
            p.position.y = p.position.y - step;
        }
    }
    let desired = AnimationKey { mode: p.mode, direction: p.facing };
    match catalog.lookup(desired) {
        Some(_) => {
            if desired != p.current_animation {
                p.current_animation = desired;
                p.mirrored = desired.direction == Direction::Left;
                Some(desired)
            } else {
                None
            }
        },
        None => None,
    }
}

/// Opposing keys held together are a no-op frame: the raw vector cancels to
/// zero, the frame is idle, and neither the position nor the facing changes.
pub proof fn lemma_opposing_keys_frame_is_idle(
    pre: Player,
    post: Player,
    catalog: Map<AnimationKey, AnimationDef>,
    input: InputState,
    dt_ms: u32,
    switch: Option<AnimationKey>,
)
    requires
        player_step_spec(pre, post, catalog, input, dt_ms, switch),
        input.up == input.down,
        input.left == input.right,
    ensures
        post.mode == MotionMode::Idle,
        post.position == pre.position,
        post.facing == pre.facing,
{
    assert(raw_x(input) == 0 && raw_y(input) == 0);
}

/// Requesting the already-playing animation is a no-op: no switch is returned,
/// the current animation is not restarted, and the mirror flag keeps the sign
/// it already has.
pub proof fn lemma_animation_switch_idempotent(
    pre: Player,
    post: Player,
    catalog: Map<AnimationKey, AnimationDef>,
    input: InputState,
    dt_ms: u32,
    switch: Option<AnimationKey>,
)
    requires
        player_step_spec(pre, post, catalog, input, dt_ms, switch),
        desired_key(pre, input) == pre.current_animation,
    ensures
        switch == None::<AnimationKey>,
        post.current_animation == pre.current_animation,
        post.mirrored == pre.mirrored,
{
}

/// On a single-axis frame the position moves by exactly
/// `speed * dt / 1000` milliunits along the held key's axis — speed times the
/// frame delta in seconds — and not at all along the other axis.
pub proof fn lemma_single_axis_step_exact(
    pre: Player,
    post: Player,
    catalog: Map<AnimationKey, AnimationDef>,
    input: InputState,
    dt_ms: u32,
    switch: Option<AnimationKey>,
)
    requires
        player_step_spec(pre, post, catalog, input, dt_ms, switch),
        crate::motion::held_count(input) == 1,
    ensures
        input.right ==> post.position.x == pre.position.x + (pre.speed_milli * dt_ms) / 1000,
        input.left ==> post.position.x == pre.position.x - (pre.speed_milli * dt_ms) / 1000,
        input.up ==> post.position.y == pre.position.y + (pre.speed_milli * dt_ms) / 1000,
        input.down ==> post.position.y == pre.position.y - (pre.speed_milli * dt_ms) / 1000,
        input.right || input.left ==> post.position.y == pre.position.y,
        input.up || input.down ==> post.position.x == pre.position.x,
{
    if input.right {
        assert(raw_x(input) == 1 && raw_y(input) == 0);
    }
    if input.left {
        assert(raw_x(input) == -1 && raw_y(input) == 0);
    }
    if input.up {
        assert(raw_x(input) == 0 && raw_y(input) == 1);
    }
    if input.down {
        assert(raw_x(input) == 0 && raw_y(input) == -1);
    }
}

} // verus!
