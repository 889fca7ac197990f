//! Directional input model: which movement keys are held, the raw direction
//! vector they sum to, and how motion mode and facing are derived from it.

use vstd::prelude::*;

verus! {

/// A cardinal facing direction of the player sprite.
#[derive(Clone, Copy, Debug, PartialEq, Eq, Structural)]
pub enum Direction {
    Up,
    Down,
    Left,
    Right,
}

/// Whether the player is standing still or moving this frame.
#[derive(Clone, Copy, Debug, PartialEq, Eq, Structural)]
pub enum MotionMode {
    Idle,
    Running,
}

/// The state of the four movement keys for one frame, as handed in by the
/// input layer of the surrounding application.
#[derive(Clone, Copy, Debug, PartialEq, Eq, Structural)]
pub struct InputState {
    pub up: bool,
    pub down: bool,
    pub left: bool,
    pub right: bool,
}

/// Horizontal component of the raw direction vector: the unit contributions
/// of the Right (+1) and Left (-1) keys, summed. Opposing keys cancel exactly.
pub open spec fn raw_x(input: InputState) -> int {
    (if input.right { 1int } else { 0int }) - (if input.left { 1int } else { 0int })
}

/// Vertical component of the raw direction vector: the unit contributions
/// of the Up (+1) and Down (-1) keys, summed. Opposing keys cancel exactly.
pub open spec fn raw_y(input: InputState) -> int {
    (if input.up { 1int } else { 0int }) - (if input.down { 1int } else { 0int })
}

/// Absolute value of a mathematical integer.
pub open spec fn abs_val(x: int) -> int {
    if x < 0 {
        -x
    } else {
        x
    }
}

/// How many movement keys are held.
pub open spec fn held_count(input: InputState) -> int {
    (if input.up { 1int } else { 0int }) + (if input.down { 1int } else { 0int })
        + (if input.left { 1int } else { 0int }) + (if input.right { 1int } else { 0int })
}

/// The motion mode derived from a raw direction vector: idle exactly when the
/// held keys cancel to the zero vector.
pub open spec fn mode_from_raw(x: int, y: int) -> MotionMode {
    if x == 0 && y == 0 {
        MotionMode::Idle
    } else {
        MotionMode::Running
    }
}

/// The facing chosen from a raw direction vector by the dominant-axis rule.
/// The zero vector keeps the previous facing; otherwise the axis with the
/// strictly greater magnitude wins, and a tie goes to the vertical axis.
pub open spec fn facing_from_raw(x: int, y: int, prev: Direction) -> Direction {
    if x == 0 && y == 0 {
        prev
    } else if abs_val(x) > abs_val(y) {
        if x > 0 {
            Direction::Right
        } else {
            Direction::Left
        }
    } else {
        if y > 0 {
            Direction::Up
        } else {
            Direction::Down
        }
    }
}

/// Sums the unit contributions of the held keys into the raw direction
/// vector, as `(x, y)`.
pub fn raw_direction(input: InputState) -> (d: (i64, i64))
    ensures
        d.0 == raw_x(input),
        d.1 == raw_y(input),
{
    let x: i64 = (if input.right { 1i64 } else { 0i64 }) - (if input.left { 1i64 } else { 0i64 });
    let y: i64 = (if input.up { 1i64 } else { 0i64 }) - (if input.down { 1i64 } else { 0i64 });
    (x, y)
}

/// A single held cardinal key gives a raw vector of unit length on exactly
/// one axis, running mode, and a facing that matches the held key, whatever
/// the previous facing was.
pub proof fn lemma_cardinal_input(input: InputState, prev: Direction)
    requires
        held_count(input) == 1,
    ensures
        abs_val(raw_x(input)) + abs_val(raw_y(input)) == 1,
        raw_x(input) == 0 || raw_y(input) == 0,
        mode_from_raw(raw_x(input), raw_y(input)) == MotionMode::Running,
        input.up ==> facing_from_raw(raw_x(input), raw_y(input), prev) == Direction::Up,
        input.down ==> facing_from_raw(raw_x(input), raw_y(input), prev) == Direction::Down,
        input.left ==> facing_from_raw(raw_x(input), raw_y(input), prev) == Direction::Left,
        input.right ==> facing_from_raw(raw_x(input), raw_y(input), prev) == Direction::Right,
{
}

/// Opposing keys cancel exactly: when the two vertical keys agree and the two
/// horizontal keys agree, the raw vector is zero and the mode is idle, and the
/// facing keeps its previous value.
pub proof fn lemma_opposing_keys_cancel(input: InputState, prev: Direction)
    requires
        input.up == input.down,
        input.left == input.right,
    ensures
        raw_x(input) == 0,
        raw_y(input) == 0,
        mode_from_raw(raw_x(input), raw_y(input)) == MotionMode::Idle,
        facing_from_raw(raw_x(input), raw_y(input), prev) == prev,
{
}

/// Diagonal input resolves to the vertical axis: with Up and Right held the
/// two magnitudes tie at one each, the strict horizontal test fails, and the
/// chosen facing is Up.
pub proof fn lemma_diagonal_tie_goes_vertical(input: InputState, prev: Direction)
    requires
        input.up,
        input.right,
        !input.down,
        !input.left,
    ensures
        raw_x(input) == 1,
        raw_y(input) == 1,
        !(abs_val(raw_x(input)) > abs_val(raw_y(input))),
        facing_from_raw(raw_x(input), raw_y(input), prev) == Direction::Up,
{
}

} // verus!
