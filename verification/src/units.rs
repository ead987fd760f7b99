//! Fixed-point units of the simulation.
//!
//! A length is an `i64` counted in steps of `1 / UNIT` of a world unit; the
//! visible screen spans two world units in each direction. `UNIT` is chosen
//! so that every grid cell, the clearance gap and one millisecond of motion
//! at any speed are whole numbers of steps. A vertical speed is an `i64`
//! counted in steps of `1 / SPEED` of a speed unit.
//!
//! Every coordinate that the simulation writes is kept inside the world box
//! `-LIMIT ..= LIMIT` by saturation, and every speed inside
//! `-SPEED_LIMIT ..= SPEED_LIMIT`.

use vstd::prelude::*;

verus! {

/// Steps per world unit.
pub const UNIT: i64 = 600_000;

/// Half the width of one grid cell (a sixteenth of a world unit).
pub const CELL_W: i64 = 37_500;

/// Half the height of one grid cell (a fifteenth of a world unit).
pub const CELL_H: i64 = 40_000;

/// Clearance left between two bodies after a sideways snap, and the bias of
/// the hit test towards a vertical resolution (a hundredth of a world unit).
pub const EPSILON: i64 = 6_000;

/// Largest magnitude of a coordinate or of a half-extent.
pub const LIMIT: i64 = 1_000_000_000_000;

/// Steps per speed unit.
pub const SPEED: i64 = 20;

/// Largest magnitude of a speed.
pub const SPEED_LIMIT: i64 = 1_000_000;

/// Speed lost to gravity in one frame of falling.
pub const GRAVITY: i64 = 3;

/// Upward speed that a jump grants.
pub const JUMP_IMPULSE: i64 = 60;

/// Upward speed that stomping on a mob grants.
pub const STOMP_BOUNCE: i64 = 30;

/// Downward speed after the player hit a solid from below.
pub const REBOUND: i64 = -20;

/// Upward speed that flings a dying player off the screen.
pub const DEATH_IMPULSE: i64 = 100;

/// Upward speed of a coin that pops out of a block.
pub const COIN_POP: i64 = 50;

/// Upward speed of a star that leaves its block.
pub const STAR_POP: i64 = 60;

/// Sideways speed of a walking mob, a mushroom or a star.
pub const WALK_SPEED: i64 = 20;

/// Sideways speed of a kicked shell.
pub const SHELL_SPEED: i64 = 60;

/// Steps travelled in one millisecond at a speed of one speed step.
pub const MOTION: i64 = 30;

/// Steps travelled in one millisecond by a popped coin at a speed of one
/// speed step.
pub const COIN_MOTION: i64 = 51;

/// Steps that the player walks, and the camera scrolls, in one millisecond.
pub const WALK: i64 = 600;

/// Steps that the player slides down the goal pole in one millisecond.
pub const SLIDE: i64 = 480;

/// Score for a collected coin.
pub const COIN_SCORE: u32 = 200;

/// Score for a stomped mob.
pub const STOMP_SCORE: u32 = 100;

/// Frames between two steps of the player's run cycle.
pub const RUN_TICKS: i32 = 5;

/// Frames between two animation steps of a mob or a mystery block.
pub const MOB_TICKS: usize = 10;

/// Frames that a squashed mob stays before it is removed.
pub const DESPAWN_TICKS: usize = 30;

/// Distance to the player below which a sleeping mob wakes up.
pub const TRIGGER_DISTANCE: i64 = 1_200_000;

/// The x coordinate of the grid line `i`, counted in half cells from the
/// left edge of the first screen.
pub open spec fn column_of(i: int) -> int {
    -UNIT + CELL_W * i
}

/// The y coordinate of the grid line `j`, counted in half cells from the
/// bottom edge of the screen.
pub open spec fn row_of(j: int) -> int {
    -UNIT + CELL_H * j
}

/// The x coordinate of the grid line `i`.
pub fn grid_x(i: i32) -> (r: i64)
    ensures
        r == column_of(i as int),
{
    -UNIT + CELL_W * (i as i64)
}

/// The y coordinate of the grid line `j`.
pub fn grid_y(j: i32) -> (r: i64)
    ensures
        r == row_of(j as int),
{
    -UNIT + CELL_H * (j as i64)
}

/// Whether two texts are the same.
pub fn same_text(a: &str, b: &str) -> (r: bool)
    ensures
        r == (a@ == b@),
{
    let a: String = a.to_owned();
    let b: String = b.to_owned();
    a == b
}

/// The value `v` brought into `lo ..= hi`.
pub open spec fn clamp(v: int, lo: int, hi: int) -> int {
    if v < lo {
        lo
    } else if v > hi {
        hi
    } else {
        v
    }
}

/// The coordinate `v` brought into the world box.
pub open spec fn clamp_pos(v: int) -> int {
    clamp(v, -LIMIT as int, LIMIT as int)
}

/// The speed `v` brought into the speed range.
pub open spec fn clamp_speed(v: int) -> int {
    clamp(v, -SPEED_LIMIT as int, SPEED_LIMIT as int)
}

/// Whether `v` is a coordinate inside the world box.
pub open spec fn in_world(v: int) -> bool {
    -LIMIT <= v <= LIMIT
}

/// Whether `v` is a speed inside the speed range.
pub open spec fn in_speed(v: int) -> bool {
    -SPEED_LIMIT <= v <= SPEED_LIMIT
}

/// Saturates a coordinate at the edge of the world box.
pub fn saturate_pos(v: i64) -> (r: i64)
    ensures
        r == clamp_pos(v as int),
        in_world(r as int),
{
    if v < -LIMIT {
        -LIMIT
    } else if v > LIMIT {
        LIMIT
    } else {
        v
    }
}

/// Saturates a speed at the edge of the speed range.
pub fn saturate_speed(v: i64) -> (r: i64)
    ensures
        r == clamp_speed(v as int),
        in_speed(r as int),
{
    if v < -SPEED_LIMIT {
        -SPEED_LIMIT
    } else if v > SPEED_LIMIT {
        SPEED_LIMIT
    } else {
        v
    }
}

/// Distance covered in `deltatime` milliseconds at `speed`, where one speed
/// step covers `scale` steps per millisecond.
pub open spec fn travel(speed: int, deltatime: int, scale: int) -> int {
    speed * deltatime * scale
}

proof fn lemma_travel_bounds(speed: int, deltatime: int, scale: int)
    requires
        in_speed(speed),
        0 <= deltatime <= u32::MAX,
        0 <= scale <= 1000,
    ensures
        -4_300_000_000_000_000_000 <= travel(speed, deltatime, scale) <= 4_300_000_000_000_000_000,
        -4_300_000_000_000_000 <= speed * deltatime <= 4_300_000_000_000_000,
{
    assert(-4_300_000_000_000_000 <= speed * deltatime <= 4_300_000_000_000_000)
        by (nonlinear_arith)
        requires
            -1_000_000 <= speed <= 1_000_000,
            0 <= deltatime <= 4_294_967_295,
    ;
    let sd = speed * deltatime;
    assert(-4_300_000_000_000_000_000 <= sd * scale <= 4_300_000_000_000_000_000)
        by (nonlinear_arith)
        requires
            -4_300_000_000_000_000 <= sd <= 4_300_000_000_000_000,
            0 <= scale <= 1000,
    ;
}

/// The coordinate `pos` after `deltatime` milliseconds at `speed`, saturated
/// at the edge of the world box.
pub fn advance(pos: i64, speed: i64, deltatime: u32, scale: i64) -> (r: i64)
    requires
        in_world(pos as int),
        in_speed(speed as int),
        0 <= scale <= 1000,
    ensures
        r == clamp_pos(pos + travel(speed as int, deltatime as int, scale as int)),
        in_world(r as int),
{
    proof {
        lemma_travel_bounds(speed as int, deltatime as int, scale as int);
    }
    let step: i64 = speed * (deltatime as i64) * scale;
    saturate_pos(pos + step)
}

} // verus!
