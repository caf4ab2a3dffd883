//! The input codec: a frame's intent of one player, packed into one byte.

use crate::geometry::{Vec2, DIAGONAL, UNIT};
use vstd::prelude::*;

verus! {

pub const INPUT_UP: u8 = 1;

pub const INPUT_DOWN: u8 = 2;

pub const INPUT_LEFT: u8 = 4;

pub const INPUT_RIGHT: u8 = 8;

pub const INPUT_FIRE: u8 = 16;

/// Whether `flag` is set in `input`.
pub open spec fn pressed(input: u8, flag: u8) -> bool {
    input & flag != 0
}

/// The sum of the contributions of two opposing flags: they cancel.
pub open spec fn axis(input: u8, plus: u8, minus: u8) -> int {
    (if pressed(input, plus) {
        1int
    } else {
        0int
    }) - (if pressed(input, minus) {
        1int
    } else {
        0int
    })
}

/// The vector with the signs `dx` and `dy`, brought to unit length: a full
/// unit along one axis, or [`DIAGONAL`] on both. Zero stays zero.
pub open spec fn unit_vector(dx: int, dy: int) -> Vec2 {
    if dx != 0 && dy != 0 {
        Vec2 { x: (dx * DIAGONAL) as i64, y: (dy * DIAGONAL) as i64 }
    } else {
        Vec2 { x: (dx * UNIT) as i64, y: (dy * UNIT) as i64 }
    }
}

/// The movement vector that `input` asks for: up is `+y`, right is `+x`.
pub open spec fn direction_of(input: u8) -> Vec2 {
    unit_vector(axis(input, INPUT_RIGHT, INPUT_LEFT), axis(input, INPUT_UP, INPUT_DOWN))
}

/// Whether `v` is one of the eight unit vectors that an input can ask for.
pub open spec fn is_unit(v: Vec2) -> bool {
    ||| (v.x == UNIT || v.x == -UNIT) && v.y == 0
    ||| v.x == 0 && (v.y == UNIT || v.y == -UNIT)
    ||| (v.x == DIAGONAL || v.x == -DIAGONAL) && (v.y == DIAGONAL || v.y == -DIAGONAL)
}

/// The code of five pressed-or-not flags.
pub open spec fn code_of(up: bool, down: bool, left: bool, right: bool, fire: bool) -> int {
    (if up {
        INPUT_UP as int
    } else {
        0
    }) + (if down {
        INPUT_DOWN as int
    } else {
        0
    }) + (if left {
        INPUT_LEFT as int
    } else {
        0
    }) + (if right {
        INPUT_RIGHT as int
    } else {
        0
    }) + (if fire {
        INPUT_FIRE as int
    } else {
        0
    })
}

/// Packs the five flags into a code. Decoding the code gives the flags back.
pub fn encode(up: bool, down: bool, left: bool, right: bool, fire: bool) -> (code: u8)
    ensures
        code == code_of(up, down, left, right, fire),
        pressed(code, INPUT_UP) == up,
        pressed(code, INPUT_DOWN) == down,
        pressed(code, INPUT_LEFT) == left,
        pressed(code, INPUT_RIGHT) == right,
        pressed(code, INPUT_FIRE) == fire,
{
    let u: u8 = if up {
        INPUT_UP
    } else {
        0
    };
    let d: u8 = if down {
        INPUT_DOWN
    } else {
        0
    };
    let l: u8 = if left {
        INPUT_LEFT
    } else {
        0
    };
    let r: u8 = if right {
        INPUT_RIGHT
    } else {
        0
    };
    let f: u8 = if fire {
        INPUT_FIRE
    } else {
        0
    };
    let code: u8 = u | d | l | r | f;
    assert(code == u + d + l + r + f && (code & 1 != 0) == (u != 0) && (code & 2 != 0) == (d != 0)
        && (code & 4 != 0) == (l != 0) && (code & 8 != 0) == (r != 0) && (code & 16 != 0) == (f
        != 0)) by (bit_vector)
        requires
            code == u | d | l | r | f,
            u == 0 || u == 1,
            d == 0 || d == 2,
            l == 0 || l == 4,
            r == 0 || r == 8,
            f == 0 || f == 16,
    ;
    code
}

/// The movement vector of `input`: the sum of one unit per pressed direction,
/// brought to unit length if it is not zero.
pub fn direction(input: u8) -> (d: Vec2)
    ensures
        d == direction_of(input),
        d == (Vec2 { x: 0, y: 0 }) || is_unit(d),
{
    let mut dx: i64 = 0;
    let mut dy: i64 = 0;
    if input & INPUT_UP != 0 {
        dy = dy + 1;
    }
    if input & INPUT_DOWN != 0 {
        dy = dy - 1;
    }
    if input & INPUT_RIGHT != 0 {
        dx = dx + 1;
    }
    if input & INPUT_LEFT != 0 {
        dx = dx - 1;
    }
    if dx != 0 && dy != 0 {
        Vec2 { x: dx * DIAGONAL, y: dy * DIAGONAL }
    } else {
        Vec2 { x: dx * UNIT, y: dy * UNIT }
    }
}

/// Decodes `input` into its movement vector and its fire flag.
pub fn decode(input: u8) -> (r: (Vec2, bool))
    ensures
        r.0 == direction_of(input),
        r.1 == pressed(input, INPUT_FIRE),
{
    (direction(input), fire(input))
}

/// Whether `input` asks to fire.
pub fn fire(input: u8) -> (f: bool)
    ensures
        f == pressed(input, INPUT_FIRE),
{
    input & INPUT_FIRE != 0
}

/// What an input asks for is no direction at all or one of the eight unit
/// vectors, and the length of each of those is one unit to less than a
/// millionth: the square of the length is off by less than `UNIT`.
pub proof fn lemma_direction_is_of_unit_length(input: u8)
    ensures
        direction_of(input) == (Vec2 { x: 0, y: 0 }) || is_unit(direction_of(input)),
        is_unit(direction_of(input)) ==> {
            let d = direction_of(input);
            UNIT * UNIT <= d.x * d.x + d.y * d.y < UNIT * UNIT + UNIT
        },
{
    assert(DIAGONAL * DIAGONAL == 500_000_309_449) by (nonlinear_arith);
    assert(0 * 0 == 0);
}

} // verus!
