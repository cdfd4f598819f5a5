//! The per-frame update step: camera integration from intent, the
//! optional follow and spawn behaviors, and the shared decorative spin
//! angle.

use vstd::prelude::*;
use vstd::arithmetic::div_mod::lemma_div_pos_is_pos;

use crate::camera::{
    camera_step, controller_wf, unit_range, world_move_x, world_move_y, world_move_z,
    advanced_coord, Controller, ANGLE_LIMIT,
};
use crate::color::Rgb;
use crate::fixed::{clamp_int, clamp_wide, COORD_LIMIT, SCALE};
use crate::geom::Vec3;
use crate::scene::{
    follow_pos, follow_step, min_i, scene_wf, spawn_pos, spawn_step, Scene,
};

verus! {

/// Decorative spin of the instances, micro-radians per second: the
/// fixed-point rendering of 6.5 rad/s. (An earlier variant of the toy
/// spun at about 8.13 rad/s; this, the refined rate, is the one kept.)
pub const SPIN_RATE: i64 = 6_500_000;

/// The read-only startup options: how many instances to place, the
/// half-extent of the spawn cube (micro-units), the follow speed
/// (micro-units of fraction per second, 0 disables), the number of
/// instances appended per frame (0 disables), and the instance color.
#[derive(Clone, Copy, PartialEq, Eq, Structural, Debug)]
pub struct Config {
    pub instance_count: usize,
    pub spawn_range: i64,
    pub follow_speed: i64,
    pub spawn_rate: usize,
    pub color: Rgb,
}

/// Configuration well-formedness: a positive spawn range within the
/// world bounds, and a non-negative follow speed.
pub open spec fn config_wf(cfg: Config) -> bool {
    &&& 0 < cfg.spawn_range <= COORD_LIMIT
    &&& cfg.follow_speed >= 0
}

impl Config {
    /// The documented defaults: 1000 instances in `[-64, 64)` on each
    /// axis, follow and spawn behavior disabled, red instances.
    pub fn standard() -> (cfg: Config)
        ensures
            cfg == (Config {
                instance_count: 1000usize,
                spawn_range: 64_000_000i64,
                follow_speed: 0i64,
                spawn_rate: 0usize,
                color: Rgb { r: 255u8, g: 0u8, b: 0u8 },
            }),
            config_wf(cfg),
    {
        Config {
            instance_count: 1000,
            spawn_range: 64_000_000,
            follow_speed: 0,
            spawn_rate: 0,
            color: Rgb { r: 255, g: 0, b: 0 },
        }
    }
}

/// The whole mutable loop state: the controller and the scene
/// population, passed by exclusive reference into each frame.
pub struct World {
    pub ctrl: Controller,
    pub scene: Scene,
}

/// World well-formedness for a configuration.
pub open spec fn world_wf(w: World, cfg: Config) -> bool {
    &&& controller_wf(w.ctrl)
    &&& scene_wf(w.scene, cfg.spawn_range)
}

/// The follow fraction for one frame: `follow_speed * dt`, rescaled and
/// saturated at a whole `SCALE` so a large step lands on the camera
/// instead of oscillating past it.
pub open spec fn follow_alpha(f: int, dt: int) -> int {
    min_i((f * dt) / (SCALE as int), SCALE as int)
}

/// Computes the follow fraction for one frame.
fn follow_alpha_at(f: i64, dt: i64) -> (a: i64)
    requires
        f >= 0,
        dt >= 0,
    ensures
        a == follow_alpha(f as int, dt as int),
        0 <= a <= SCALE,
{
    assert(0 <= (f as int) * (dt as int) <= 0x7fff_ffff_ffff_ffffi64 * 0x7fff_ffff_ffff_ffffi64)
        by (nonlinear_arith)
        requires
            0 <= f <= 0x7fff_ffff_ffff_ffffi64,
            0 <= dt <= 0x7fff_ffff_ffff_ffffi64,
    ;
    let prod: i128 = (f as i128) * (dt as i128);
    let q: i128 = prod / (SCALE as i128);
    proof {
        if prod > 0 {
            lemma_div_pos_is_pos(prod as int, SCALE as int);
        }
    }
    if q > SCALE as i128 {
        SCALE
    } else {
        q as i64
    }
}

/// The decorative rotation angle after `elapsed` micro-seconds of run
/// time: `SPIN_RATE` per second, shared by every instance this frame,
/// saturated at the angle store's bounds.
pub open spec fn spin_angle(elapsed: int) -> int {
    clamp_int((SPIN_RATE * elapsed) / (SCALE as int), -ANGLE_LIMIT as int, ANGLE_LIMIT as int)
}

/// Computes the decorative rotation angle for the current frame.
pub fn spin_angle_at(elapsed: i64) -> (r: i64)
    requires
        elapsed >= 0,
    ensures
        r == spin_angle(elapsed as int),
{
    let prod: i128 = (elapsed as i128) * 6_500_000i128;
    clamp_wide(prod / (SCALE as i128), -ANGLE_LIMIT, ANGLE_LIMIT)
}

/// The scene population after one whole update step: every instance
/// attracted toward the camera where the follow behavior is enabled,
/// then exactly `spawn_rate` newly drawn instances appended.
pub open spec fn step_positions(
    ps: Seq<Vec3>,
    seed: u64,
    cfg: Config,
    cam: Vec3,
    dt: int,
) -> Seq<Vec3> {
    let alpha = follow_alpha(cfg.follow_speed as int, dt);
    let moved = if cfg.follow_speed == 0 {
        ps
    } else {
        Seq::new(ps.len(), |i: int| follow_pos(ps[i], cam, alpha))
    };
    moved + Seq::new(
        cfg.spawn_rate as nat,
        |j: int| spawn_pos(seed, cfg.spawn_range, (ps.len() + j) as nat),
    )
}

/// Advances the world by one frame, in the documented order: the camera
/// position integrates the current intent over `dt` micro-seconds using
/// the supplied yaw basis; where enabled, every instance then follows the
/// new camera position; where enabled, `spawn_rate` new instances are
/// appended from the random stream; and the shared decorative spin angle
/// for this frame is returned.
pub fn update_step(
    w: &mut World,
    cfg: &Config,
    dt: i64,
    elapsed: i64,
    cos_yaw: i64,
    sin_yaw: i64,
) -> (spin: i64)
    requires
        config_wf(*cfg),
        world_wf(*old(w), *cfg),
        dt >= 0,
        elapsed >= 0,
        unit_range(cos_yaw as int),
        unit_range(sin_yaw as int),
    ensures
        world_wf(*final(w), *cfg),
        final(w).ctrl.yaw == old(w).ctrl.yaw,
        final(w).ctrl.pitch == old(w).ctrl.pitch,
        final(w).ctrl.intent == old(w).ctrl.intent,
        final(w).ctrl.position.x == advanced_coord(
            old(w).ctrl.position.x as int,
            world_move_x(cos_yaw as int, sin_yaw as int, old(w).ctrl.intent),
            dt as int,
        ),
        final(w).ctrl.position.y == advanced_coord(
            old(w).ctrl.position.y as int,
            world_move_y(old(w).ctrl.intent),
            dt as int,
        ),
        final(w).ctrl.position.z == advanced_coord(
            old(w).ctrl.position.z as int,
            world_move_z(cos_yaw as int, sin_yaw as int, old(w).ctrl.intent),
            dt as int,
        ),
        final(w).scene.rng.seed() == old(w).scene.rng.seed(),
        final(w).scene.positions@ == step_positions(
            old(w).scene.positions@,
            old(w).scene.rng.seed(),
            *cfg,
            final(w).ctrl.position,
            dt as int,
        ),
        spin == spin_angle(elapsed as int),
{
    let ghost ps0 = old(w).scene.positions@;
    let ghost seed0 = old(w).scene.rng.seed();
    camera_step(&mut w.ctrl, dt, cos_yaw, sin_yaw);
    let cam = w.ctrl.position;
    let ghost alpha_spec = follow_alpha(cfg.follow_speed as int, dt as int);
    if cfg.follow_speed != 0 {
        let alpha = follow_alpha_at(cfg.follow_speed, dt);
        follow_step(&mut w.scene, cam, alpha);
    }
    let ghost moved = w.scene.positions@;
    proof {
        if cfg.follow_speed != 0 {
            assert(moved =~= Seq::new(ps0.len(), |i: int| follow_pos(ps0[i], cam, alpha_spec)));
        }
    }
    spawn_step(&mut w.scene, cfg.spawn_range, cfg.spawn_rate);
    proof {
        assert(w.scene.positions@ =~= step_positions(ps0, seed0, *cfg, cam, dt as int));
    }
    spin_angle_at(elapsed)
}

/// The scene population after a whole sequence of frames; each frame
/// carries the camera position the instances saw and its `dt`.
pub open spec fn run_steps(
    ps: Seq<Vec3>,
    seed: u64,
    cfg: Config,
    frames: Seq<(Vec3, int)>,
) -> Seq<Vec3>
    decreases frames.len(),
{
    if frames.len() == 0 {
        ps
    } else {
        run_steps(
            step_positions(ps, seed, cfg, frames[0].0, frames[0].1),
            seed,
            cfg,
            frames.drop_first(),
        )
    }
}

/// Over any number of frames the population grows by exactly
/// `spawn_rate` instances per frame — never shrinks, never skips.
pub proof fn lemma_population_growth(
    ps: Seq<Vec3>,
    seed: u64,
    cfg: Config,
    frames: Seq<(Vec3, int)>,
)
    ensures
        run_steps(ps, seed, cfg, frames).len() == ps.len() + (cfg.spawn_rate as int)
            * frames.len(),
    decreases frames.len(),
{
    if frames.len() > 0 {
        let stepped = step_positions(ps, seed, cfg, frames[0].0, frames[0].1);
        lemma_population_growth(stepped, seed, cfg, frames.drop_first());
        assert((cfg.spawn_rate as int) * frames.len() == (cfg.spawn_rate as int) + (
        cfg.spawn_rate as int) * (frames.len() - 1)) by (nonlinear_arith);
    }
}

/// With the follow behavior disabled, the instances already placed never
/// move: across any number of frames, with any camera motion and any
/// frame times, every starting position reads back unchanged.
pub proof fn lemma_static_without_follow(
    ps: Seq<Vec3>,
    seed: u64,
    cfg: Config,
    frames: Seq<(Vec3, int)>,
)
    requires
        cfg.follow_speed == 0,
    ensures
        forall|i: int|
            0 <= i < ps.len() ==> run_steps(ps, seed, cfg, frames)[i] == ps[i],
    decreases frames.len(),
{
    if frames.len() > 0 {
        let stepped = step_positions(ps, seed, cfg, frames[0].0, frames[0].1);
        assert(forall|i: int| 0 <= i < ps.len() ==> stepped[i] == ps[i]);
        lemma_static_without_follow(stepped, seed, cfg, frames.drop_first());
    }
}

} // verus!
