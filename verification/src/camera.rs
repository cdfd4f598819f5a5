//! Camera and controller state, and the per-frame camera kinematics.
//!
//! The movement basis is a horizontal-plane frame derived from yaw alone;
//! the cosine and sine of the current yaw and pitch are fixed-point values
//! in `[-SCALE, SCALE]` supplied by the platform layer, which is the only
//! place trigonometry is evaluated.

use vstd::prelude::*;

use crate::fixed::{clamp_int, clamp_wide, in_world_range, COORD_LIMIT, SCALE};
use crate::geom::{in_world, Vec3};

verus! {

/// World units travelled per second per unit of intent (a pure multiplier,
/// not fixed-point scaled).
pub const MOVE_SPEED: i64 = 3;

/// Largest angle (micro-radians) the saturating yaw store admits.
pub const ANGLE_LIMIT: i64 = 1_000_000_000_000;

/// Pitch clamp bound: the fixed-point rendering of `pi/2 - 0.01` radians.
/// Pitch always stays in `[-PITCH_LIMIT, PITCH_LIMIT]`, so the camera
/// never flips over.
pub const PITCH_LIMIT: i64 = 1_560_796;

/// A movement-intent axis holds a signed unit value or rests at zero.
pub open spec fn axis_ok(v: int) -> bool {
    v == -1 || v == 0 || v == 1
}

/// The player's desired movement in camera-local axes: sideways, vertical
/// and forward, each component in `{-1, 0, 1}`.
#[derive(Clone, Copy, PartialEq, Eq, Structural, Debug)]
pub struct Intent {
    pub strafe: i64,
    pub up: i64,
    pub fwd: i64,
}

/// Every intent axis is a signed unit value or zero.
pub open spec fn intent_wf(i: Intent) -> bool {
    axis_ok(i.strafe as int) && axis_ok(i.up as int) && axis_ok(i.fwd as int)
}

impl Intent {
    /// The resting intent: no movement requested.
    pub fn idle() -> (r: Intent)
        ensures
            r == (Intent { strafe: 0i64, up: 0i64, fwd: 0i64 }),
    {
        Intent { strafe: 0, up: 0, fwd: 0 }
    }
}

/// The full controller state: player position, look angles
/// (micro-radians) and the current movement intent.
#[derive(Clone, Copy, PartialEq, Eq, Structural, Debug)]
pub struct Controller {
    pub position: Vec3,
    pub yaw: i64,
    pub pitch: i64,
    pub intent: Intent,
}

/// Controller well-formedness: intent axes are unit values, the position
/// sits within the world bounds, and both angles sit within their
/// saturation (for pitch: clamp) bounds.
pub open spec fn controller_wf(c: Controller) -> bool {
    &&& intent_wf(c.intent)
    &&& in_world(c.position)
    &&& -ANGLE_LIMIT <= c.yaw <= ANGLE_LIMIT
    &&& -PITCH_LIMIT <= c.pitch <= PITCH_LIMIT
}

impl Controller {
    /// The state a run starts in: at the origin, looking along the
    /// zero-yaw axis, not moving.
    pub fn start() -> (c: Controller)
        ensures
            c == (Controller {
                position: Vec3 { x: 0i64, y: 0i64, z: 0i64 },
                yaw: 0i64,
                pitch: 0i64,
                intent: Intent { strafe: 0i64, up: 0i64, fwd: 0i64 },
            }),
            controller_wf(c),
    {
        Controller { position: Vec3::zero(), yaw: 0, pitch: 0, intent: Intent::idle() }
    }
}

/// `v` is a fixed-point value of magnitude at most one, as the cosine or
/// sine of an angle is.
pub open spec fn unit_range(v: int) -> bool {
    -SCALE <= v <= SCALE
}

/// x-component of the world-space move direction for one intent: the
/// camera-relative frame is forward `(cos yaw, 0, sin yaw)` and right
/// `(sin yaw, 0, -cos yaw)`, both horizontal whatever the pitch.
pub open spec fn world_move_x(cos_yaw: int, sin_yaw: int, i: Intent) -> int {
    cos_yaw * i.fwd + sin_yaw * i.strafe
}

/// y-component: the vertical intent taken directly, unrotated.
pub open spec fn world_move_y(i: Intent) -> int {
    i.up * SCALE
}

/// z-component of the world-space move direction for one intent.
pub open spec fn world_move_z(cos_yaw: int, sin_yaw: int, i: Intent) -> int {
    sin_yaw * i.fwd - cos_yaw * i.strafe
}

/// The world-space move direction: forward and right each scaled by their
/// intent axis, the vertical axis passed through.
pub fn world_move(cos_yaw: i64, sin_yaw: i64, i: &Intent) -> (r: Vec3)
    requires
        unit_range(cos_yaw as int),
        unit_range(sin_yaw as int),
        intent_wf(*i),
    ensures
        r.x == world_move_x(cos_yaw as int, sin_yaw as int, *i),
        r.y == world_move_y(*i),
        r.z == world_move_z(cos_yaw as int, sin_yaw as int, *i),
        -2 * SCALE <= r.x <= 2 * SCALE,
        -2 * SCALE <= r.y <= 2 * SCALE,
        -2 * SCALE <= r.z <= 2 * SCALE,
{
    let x = cos_yaw * i.fwd + sin_yaw * i.strafe;
    let y = i.up * SCALE;
    let z = sin_yaw * i.fwd - cos_yaw * i.strafe;
    Vec3 { x, y, z }
}

/// The distance (micro-units) one coordinate moves in `dt` micro-seconds
/// at world-move component `wm`: `wm * dt * MOVE_SPEED`, rescaled and
/// truncated toward zero.
pub open spec fn move_delta(wm: int, dt: int) -> int {
    if wm >= 0 {
        (wm * dt * MOVE_SPEED) / (SCALE as int)
    } else {
        -(((-wm) * dt * MOVE_SPEED) / (SCALE as int))
    }
}

/// One coordinate after integration, saturated at the world bounds.
pub open spec fn advanced_coord(p: int, wm: int, dt: int) -> int {
    clamp_int(p + move_delta(wm, dt), -COORD_LIMIT as int, COORD_LIMIT as int)
}

/// Integrates one coordinate by `move_delta`, saturating at the world
/// bounds.
fn advance_coord(p: i64, wm: i64, dt: i64) -> (r: i64)
    requires
        dt >= 0,
        in_world_range(p as int),
        -2 * SCALE <= wm <= 2 * SCALE,
    ensures
        r == advanced_coord(p as int, wm as int, dt as int),
        in_world_range(r as int),
{
    let mag: i64 = if wm < 0 {
        -wm
    } else {
        wm
    };
    assert(0 <= (mag as int) * (dt as int) <= 2_000_000 * 0x7fff_ffff_ffff_ffffi64)
        by (nonlinear_arith)
        requires
            0 <= mag <= 2_000_000,
            0 <= dt <= 0x7fff_ffff_ffff_ffffi64,
    ;
    let prod: i128 = (mag as i128) * (dt as i128) * (MOVE_SPEED as i128);
    let step: i128 = prod / (SCALE as i128);
    let delta: i128 = if wm < 0 {
        -step
    } else {
        step
    };
    clamp_wide((p as i128) + delta, -COORD_LIMIT, COORD_LIMIT)
}

/// Advances the controller position by the world-space move vector over
/// `dt` micro-seconds; angles and intent are untouched.
pub fn camera_step(c: &mut Controller, dt: i64, cos_yaw: i64, sin_yaw: i64)
    requires
        controller_wf(*old(c)),
        dt >= 0,
        unit_range(cos_yaw as int),
        unit_range(sin_yaw as int),
    ensures
        final(c).yaw == old(c).yaw,
        final(c).pitch == old(c).pitch,
        final(c).intent == old(c).intent,
        final(c).position.x == advanced_coord(
            old(c).position.x as int,
            world_move_x(cos_yaw as int, sin_yaw as int, old(c).intent),
            dt as int,
        ),
        final(c).position.y == advanced_coord(
            old(c).position.y as int,
            world_move_y(old(c).intent),
            dt as int,
        ),
        final(c).position.z == advanced_coord(
            old(c).position.z as int,
            world_move_z(cos_yaw as int, sin_yaw as int, old(c).intent),
            dt as int,
        ),
        controller_wf(*final(c)),
{
    let wm = world_move(cos_yaw, sin_yaw, &c.intent);
    let x = advance_coord(c.position.x, wm.x, dt);
    let y = advance_coord(c.position.y, wm.y, dt);
    let z = advance_coord(c.position.z, wm.z, dt);
    c.position = Vec3 { x, y, z };
}

/// The truncated fixed-point product of two unit-range values,
/// `a * b / SCALE`.
pub open spec fn unit_prod(a: int, b: int) -> int {
    if a * b >= 0 {
        (a * b) / (SCALE as int)
    } else {
        -((-(a * b)) / (SCALE as int))
    }
}

/// The spherical-to-Cartesian look vector
/// `(cos yaw * cos pitch, sin pitch, sin yaw * cos pitch)`.
pub fn view_direction(cos_yaw: i64, sin_yaw: i64, cos_pitch: i64, sin_pitch: i64) -> (r: Vec3)
    requires
        unit_range(cos_yaw as int),
        unit_range(sin_yaw as int),
        unit_range(cos_pitch as int),
        unit_range(sin_pitch as int),
    ensures
        r.x == unit_prod(cos_yaw as int, cos_pitch as int),
        r.y == sin_pitch,
        r.z == unit_prod(sin_yaw as int, cos_pitch as int),
{
    let x = scaled_unit_mul(cos_yaw, cos_pitch);
    let z = scaled_unit_mul(sin_yaw, cos_pitch);
    Vec3 { x, y: sin_pitch, z }
}

/// Multiplies two unit-range fixed-point values, truncating toward zero.
fn scaled_unit_mul(a: i64, b: i64) -> (r: i64)
    requires
        unit_range(a as int),
        unit_range(b as int),
    ensures
        r == unit_prod(a as int, b as int),
{
    assert(-1_000_000_000_000 <= (a as int) * (b as int) <= 1_000_000_000_000)
        by (nonlinear_arith)
        requires
            -1_000_000 <= a <= 1_000_000,
            -1_000_000 <= b <= 1_000_000,
    ;
    let p: i64 = a * b;
    if p >= 0 {
        p / SCALE
    } else {
        -((-p) / SCALE)
    }
}

} // verus!
