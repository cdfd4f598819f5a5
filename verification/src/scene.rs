//! The scene population: an ordered, growable collection of instance
//! positions, placed by the seeded random stream and optionally attracted
//! toward the camera each frame.
//!
//! Placement is deterministic: every coordinate ever drawn equals
//! `spawn_coord` of the seed, the spawn range and the draw's global index,
//! so one seed and one configuration give one scene, run after run.

use vstd::prelude::*;
use vstd::arithmetic::div_mod::{
    lemma_div_is_ordered, lemma_div_multiples_vanish, lemma_div_pos_is_pos,
};
use vstd::arithmetic::mul::lemma_mul_inequality;

use crate::fixed::{in_world_range, COORD_LIMIT, SCALE};
use crate::geom::{in_world, Vec3};
use crate::rng::{rng_draw, SceneRng};

verus! {

/// The smaller of two integers.
pub open spec fn min_i(a: int, b: int) -> int {
    if a < b {
        a
    } else {
        b
    }
}

/// The draw-bounds history after `n` uniform draws over
/// `[-range, range)`.
pub open spec fn uniform_draws(range: i64, n: nat) -> Seq<(i64, i64)> {
    Seq::new(n, |i: int| ((-range) as i64, range))
}

/// The value of the draw with global index `k` (0-based) of a stream
/// seeded with `seed` whose draws are all over `[-range, range)`.
pub open spec fn spawn_coord(seed: u64, range: i64, k: nat) -> i64 {
    rng_draw(seed, uniform_draws(range, k + 1))
}

/// The position of the instance with birth index `i`: its three
/// coordinates are the draws `3i`, `3i + 1` and `3i + 2` of the stream.
pub open spec fn spawn_pos(seed: u64, range: i64, i: nat) -> Vec3 {
    Vec3 {
        x: spawn_coord(seed, range, 3 * i),
        y: spawn_coord(seed, range, 3 * i + 1),
        z: spawn_coord(seed, range, 3 * i + 2),
    }
}

/// The whole startup population for one seed: `count` positions, each the
/// next three draws of the stream.
pub open spec fn generated_positions(seed: u64, range: i64, count: nat) -> Seq<Vec3> {
    Seq::new(count, |i: int| spawn_pos(seed, range, i as nat))
}

/// Every component of `p` lies in the half-open spawn cube
/// `[-range, range)`.
pub open spec fn pos_in_spawn_range(p: Vec3, range: i64) -> bool {
    &&& -range <= p.x < range
    &&& -range <= p.y < range
    &&& -range <= p.z < range
}

/// The scene population: instance positions in birth order, and the
/// random stream that placed them. Instances are never removed; the
/// collection only grows (without bound while spawning is enabled — an
/// intentional hazard of long sessions, not a defect to bound here).
pub struct Scene {
    pub positions: Vec<Vec3>,
    pub rng: SceneRng,
}

/// Scene well-formedness for a spawn range: the stream's history is
/// exactly the three uniform draws of each instance born so far, and
/// every position sits within the world bounds.
pub open spec fn scene_wf(s: Scene, range: i64) -> bool {
    &&& s.rng.draws() == uniform_draws(range, 3 * s.positions@.len())
    &&& forall|i: int| 0 <= i < s.positions@.len() ==> in_world(#[trigger] s.positions@[i])
}

/// Appending one more uniform draw to a uniform history gives the uniform
/// history one longer.
proof fn lemma_uniform_draws_extend(range: i64, n: nat)
    ensures
        uniform_draws(range, n).push(((-range) as i64, range)) == uniform_draws(range, n + 1),
{
    assert(uniform_draws(range, n).push(((-range) as i64, range)) =~= uniform_draws(
        range,
        n + 1,
    ));
}

/// Draws the next instance position: three uniform coordinates from the
/// stream, each in `[-range, range)`.
fn sample_position(rng: &mut SceneRng, range: i64) -> (p: Vec3)
    requires
        0 < range <= COORD_LIMIT,
        old(rng).draws() == uniform_draws(range, old(rng).draws().len()),
    ensures
        final(rng).seed() == old(rng).seed(),
        final(rng).draws() == uniform_draws(range, old(rng).draws().len() + 3),
        p.x == spawn_coord(old(rng).seed(), range, old(rng).draws().len()),
        p.y == spawn_coord(old(rng).seed(), range, old(rng).draws().len() + 1),
        p.z == spawn_coord(old(rng).seed(), range, old(rng).draws().len() + 2),
        pos_in_spawn_range(p, range),
        in_world(p),
{
    let ghost n = old(rng).draws().len();
    let low: i64 = -range;
    let x = rng.gen_i64(low, range);
    proof {
        lemma_uniform_draws_extend(range, n);
    }
    let y = rng.gen_i64(low, range);
    proof {
        lemma_uniform_draws_extend(range, n + 1);
    }
    let z = rng.gen_i64(low, range);
    proof {
        lemma_uniform_draws_extend(range, n + 2);
    }
    Vec3 { x, y, z }
}

/// Builds the startup scene: `count` instances placed by the stream
/// seeded with `seed`, every coordinate uniform over `[-range, range)`.
/// The result is a function of the three arguments alone, so a fixed seed
/// reproduces the same scene run after run.
pub fn generate(seed: u64, count: usize, range: i64) -> (s: Scene)
    requires
        0 < range <= COORD_LIMIT,
    ensures
        scene_wf(s, range),
        s.rng.seed() == seed,
        s.positions@.len() == count,
        s.positions@ == generated_positions(seed, range, count as nat),
        forall|i: int|
            0 <= i < count ==> pos_in_spawn_range(#[trigger] s.positions@[i], range),
{
    let mut rng = SceneRng::from_seed(seed);
    let mut positions: Vec<Vec3> = Vec::new();
    let mut n: usize = 0;
    proof {
        assert(uniform_draws(range, 0) =~= Seq::<(i64, i64)>::empty());
    }
    while n < count
        invariant
            0 < range <= COORD_LIMIT,
            n <= count,
            positions@.len() == n,
            rng.seed() == seed,
            rng.draws() == uniform_draws(range, 3 * n as nat),
            forall|i: int| 0 <= i < n ==> positions@[i] == spawn_pos(seed, range, i as nat),
            forall|i: int|
                0 <= i < n ==> pos_in_spawn_range(#[trigger] positions@[i], range),
        decreases count - n,
    {
        let p = sample_position(&mut rng, range);
        positions.push(p);
        n = n + 1;
    }
    proof {
        assert(positions@ =~= generated_positions(seed, range, count as nat));
    }
    Scene { positions, rng }
}

/// One coordinate after the follow step: moved toward the camera
/// coordinate by the fraction `alpha / SCALE` of the gap (`alpha` is
/// `follow_speed * dt`, rescaled), truncated toward zero and saturated at
/// the full gap, so the instance lands between its old place and the
/// camera and never overshoots.
pub open spec fn follow_coord(inst: int, cam: int, alpha: int) -> int {
    let a = min_i(alpha, SCALE as int);
    if cam >= inst {
        inst + ((cam - inst) * a) / (SCALE as int)
    } else {
        inst - ((inst - cam) * a) / (SCALE as int)
    }
}

/// A whole position after the follow step, per axis.
pub open spec fn follow_pos(p: Vec3, cam: Vec3, alpha: int) -> Vec3 {
    Vec3 {
        x: follow_coord(p.x as int, cam.x as int, alpha) as i64,
        y: follow_coord(p.y as int, cam.y as int, alpha) as i64,
        z: follow_coord(p.z as int, cam.z as int, alpha) as i64,
    }
}

/// The absolute gap between two coordinates.
pub open spec fn axis_gap(a: int, b: int) -> int {
    if a >= b {
        a - b
    } else {
        b - a
    }
}

/// The follow step's exact per-axis contraction law: the gap to the
/// camera shrinks by its truncated `alpha / SCALE` fraction and never
/// grows; the moved coordinate stays between its old value and the
/// camera (no overshoot, no oscillation); and once `alpha` reaches a
/// whole `SCALE` — a `follow_speed * dt` of one or more — the instance
/// lands exactly on the camera (saturation).
pub proof fn lemma_follow_contracts(inst: int, cam: int, alpha: int)
    requires
        alpha >= 0,
    ensures
        axis_gap(follow_coord(inst, cam, alpha), cam) == axis_gap(inst, cam) - (axis_gap(
            inst,
            cam,
        ) * min_i(alpha, SCALE as int)) / (SCALE as int),
        axis_gap(follow_coord(inst, cam, alpha), cam) <= axis_gap(inst, cam),
        inst <= cam ==> inst <= follow_coord(inst, cam, alpha) <= cam,
        cam <= inst ==> cam <= follow_coord(inst, cam, alpha) <= inst,
        alpha >= SCALE ==> follow_coord(inst, cam, alpha) == cam,
{
    let a = min_i(alpha, SCALE as int);
    let d = axis_gap(inst, cam);
    let sc = SCALE as int;
    lemma_mul_inequality(a, sc, d);
    assert(d * a == a * d) by (nonlinear_arith);
    assert(d * sc == sc * d) by (nonlinear_arith);
    lemma_div_is_ordered(d * a, d * sc, sc);
    lemma_div_multiples_vanish(d, sc);
    if d * a > 0 {
        lemma_div_pos_is_pos(d * a, sc);
    } else {
        assert(d * a == 0) by (nonlinear_arith)
            requires
                d >= 0 && a >= 0 && !(d * a > 0),
        ;
    }
    if alpha >= SCALE {
        assert(a == sc);
        assert((d * sc) / sc == d);
    }
}

/// The iterated follow step on one axis: `n` frames of attraction toward
/// a resting camera coordinate.
pub open spec fn follow_iter(inst: int, cam: int, alpha: int, n: nat) -> int
    decreases n,
{
    if n == 0 {
        inst
    } else {
        follow_coord(follow_iter(inst, cam, alpha, (n - 1) as nat), cam, alpha)
    }
}

/// Under a resting camera, the gap to the camera decreases monotonically
/// over any number of follow steps: each frame's gap is at most the
/// previous frame's, and so at most the starting gap.
pub proof fn lemma_follow_monotone(inst: int, cam: int, alpha: int, n: nat)
    requires
        alpha >= 0,
        n >= 1,
    ensures
        axis_gap(follow_iter(inst, cam, alpha, n), cam) <= axis_gap(
            follow_iter(inst, cam, alpha, (n - 1) as nat),
            cam,
        ),
        axis_gap(follow_iter(inst, cam, alpha, n), cam) <= axis_gap(inst, cam),
    decreases n,
{
    lemma_follow_contracts(follow_iter(inst, cam, alpha, (n - 1) as nat), cam, alpha);
    if n > 1 {
        lemma_follow_monotone(inst, cam, alpha, (n - 1) as nat);
    }
}

/// Moves one coordinate toward the camera coordinate by the follow
/// fraction `alpha`.
fn follow_coord_exec(inst: i64, cam: i64, alpha: i64) -> (r: i64)
    requires
        alpha >= 0,
        in_world_range(inst as int),
        in_world_range(cam as int),
    ensures
        r == follow_coord(inst as int, cam as int, alpha as int),
        in_world_range(r as int),
{
    proof {
        lemma_follow_contracts(inst as int, cam as int, alpha as int);
    }
    let a: i64 = if alpha > SCALE {
        SCALE
    } else {
        alpha
    };
    if cam >= inst {
        let d: i64 = cam - inst;
        assert(0 <= d * a <= 2_000_000_000_000i64 * 1_000_000i64) by (nonlinear_arith)
            requires
                0 <= d <= 2_000_000_000_000i64,
                0 <= a <= 1_000_000i64,
        ;
        let step: i64 = ((d as i128 * a as i128) / (SCALE as i128)) as i64;
        inst + step
    } else {
        let d: i64 = inst - cam;
        assert(0 <= d * a <= 2_000_000_000_000i64 * 1_000_000i64) by (nonlinear_arith)
            requires
                0 <= d <= 2_000_000_000_000i64,
                0 <= a <= 1_000_000i64,
        ;
        let step: i64 = ((d as i128 * a as i128) / (SCALE as i128)) as i64;
        inst - step
    }
}

/// The follow behavior for one frame: every instance moves toward the
/// camera position by the fraction `alpha / SCALE` of its gap, per axis.
pub fn follow_step(s: &mut Scene, cam: Vec3, alpha: i64)
    requires
        alpha >= 0,
        in_world(cam),
        forall|i: int|
            0 <= i < old(s).positions@.len() ==> in_world(#[trigger] old(s).positions@[i]),
    ensures
        final(s).rng == old(s).rng,
        final(s).positions@.len() == old(s).positions@.len(),
        forall|i: int|
            0 <= i < old(s).positions@.len() ==> final(s).positions@[i] == follow_pos(
                old(s).positions@[i],
                cam,
                alpha as int,
            ),
        forall|i: int|
            0 <= i < final(s).positions@.len() ==> in_world(#[trigger] final(s).positions@[i]),
{
    let n = s.positions.len();
    let mut i: usize = 0;
    while i < n
        invariant
            n == s.positions@.len(),
            i <= n,
            alpha >= 0,
            in_world(cam),
            s.rng == old(s).rng,
            forall|j: int| i <= j < n ==> s.positions@[j] == old(s).positions@[j],
            forall|j: int| i <= j < n ==> in_world(#[trigger] s.positions@[j]),
            forall|j: int|
                0 <= j < i ==> s.positions@[j] == follow_pos(
                    old(s).positions@[j],
                    cam,
                    alpha as int,
                ),
            forall|j: int| 0 <= j < i ==> in_world(#[trigger] s.positions@[j]),
        decreases n - i,
    {
        let p = s.positions[i];
        let moved = Vec3 {
            x: follow_coord_exec(p.x, cam.x, alpha),
            y: follow_coord_exec(p.y, cam.y, alpha),
            z: follow_coord_exec(p.z, cam.z, alpha),
        };
        s.positions[i] = moved;
        i = i + 1;
    }
}

/// The spawn behavior for one frame: appends exactly `rate` new
/// instances, each placed by the next three draws of the stream.
pub fn spawn_step(s: &mut Scene, range: i64, rate: usize)
    requires
        0 < range <= COORD_LIMIT,
        scene_wf(*old(s), range),
    ensures
        scene_wf(*final(s), range),
        final(s).rng.seed() == old(s).rng.seed(),
        final(s).positions@.len() == old(s).positions@.len() + rate,
        forall|i: int|
            0 <= i < old(s).positions@.len() ==> final(s).positions@[i] == old(s).positions@[i],
        forall|i: int|
            old(s).positions@.len() <= i < final(s).positions@.len() ==> final(s).positions@[i]
                == spawn_pos(old(s).rng.seed(), range, i as nat),
        forall|i: int|
            old(s).positions@.len() <= i < final(s).positions@.len() ==> pos_in_spawn_range(
                #[trigger] final(s).positions@[i],
                range,
            ),
{
    let ghost n0 = old(s).positions@.len();
    let mut k: usize = 0;
    while k < rate
        invariant
            0 < range <= COORD_LIMIT,
            k <= rate,
            s.positions@.len() == n0 + k,
            s.rng.seed() == old(s).rng.seed(),
            s.rng.draws() == uniform_draws(range, 3 * s.positions@.len()),
            forall|i: int| 0 <= i < n0 ==> s.positions@[i] == old(s).positions@[i],
            forall|i: int| 0 <= i < n0 ==> in_world(#[trigger] s.positions@[i]) == in_world(
                #[trigger] old(s).positions@[i],
            ),
            forall|i: int|
                n0 <= i < s.positions@.len() ==> s.positions@[i] == spawn_pos(
                    old(s).rng.seed(),
                    range,
                    i as nat,
                ),
            forall|i: int|
                n0 <= i < s.positions@.len() ==> pos_in_spawn_range(
                    #[trigger] s.positions@[i],
                    range,
                ),
            scene_wf(*old(s), range),
        decreases rate - k,
    {
        let p = sample_position(&mut s.rng, range);
        s.positions.push(p);
        k = k + 1;
    }
}

} // verus!
