use teapots::camera::Controller;
use teapots::color::Rgb;
use teapots::fixed::SCALE;
use teapots::geom::Vec3;
use teapots::input::{handle_event, InputEvent, KeyId};
use teapots::scene::generate;
use teapots::update::{spin_angle_at, update_step, Config, World};

const RANGE: i64 = 64_000_000; // 64.0 world units in micro-units

fn quiet_config() -> Config {
    Config {
        instance_count: 8,
        spawn_range: RANGE,
        follow_speed: 0,
        spawn_rate: 0,
        color: Rgb { r: 255, g: 0, b: 0 },
    }
}

fn world_with(cfg: &Config, seed: u64) -> World {
    World {
        ctrl: Controller::start(),
        scene: generate(seed, cfg.instance_count, cfg.spawn_range),
    }
}

/// The truncated follow step on one axis, as the contract states it.
fn expected_follow(inst: i64, cam: i64, alpha: i64) -> i64 {
    let a = alpha.min(SCALE);
    let d = (cam - inst).abs() as i128;
    let step = (d * a as i128 / SCALE as i128) as i64;
    if cam >= inst {
        inst + step
    } else {
        inst - step
    }
}

#[test]
fn test_generation_count_and_range() {
    let s = generate(0, 1000, RANGE);
    assert_eq!(s.positions.len(), 1000);
    for p in &s.positions {
        for v in [p.x, p.y, p.z] {
            assert!(-RANGE <= v && v < RANGE);
        }
    }
}

#[test]
fn test_generation_reproducible() {
    // A fixed seed reproduces the same placement, bit for bit.
    let a = generate(0, 3, 1_000_000);
    let b = generate(0, 3, 1_000_000);
    assert_eq!(a.positions, b.positions);
    assert_eq!(a.positions.len(), 3);
    for p in &a.positions {
        for v in [p.x, p.y, p.z] {
            assert!(-1_000_000 <= v && v < 1_000_000);
        }
    }
}

#[test]
fn test_generation_draws_vary() {
    // The stream really samples: a generator that handed one range bound
    // back for every draw would place every instance at a cube corner.
    let s = generate(0, 2, RANGE);
    assert!(s.positions.iter().any(|p| p.x != -RANGE && p.x != RANGE - 1));
    let t = generate(1, 2, RANGE);
    assert_ne!(s.positions, t.positions);
}

#[test]
fn test_update_moves_camera_forward() {
    let cfg = quiet_config();
    let mut w = world_with(&cfg, 0);
    handle_event(
        &mut w.ctrl,
        InputEvent::Keyboard { key: KeyId::MoveW, pressed: true, repeat: false },
    );
    // One full second at yaw 0: forward is +x, speed 3 units/second.
    update_step(&mut w, &cfg, SCALE, 0, SCALE, 0);
    assert_eq!(w.ctrl.position, Vec3 { x: 3_000_000, y: 0, z: 0 });
}

#[test]
fn test_update_moves_camera_sideways_and_up() {
    let cfg = quiet_config();
    let mut w = world_with(&cfg, 0);
    handle_event(
        &mut w.ctrl,
        InputEvent::Keyboard { key: KeyId::MoveD, pressed: true, repeat: false },
    );
    handle_event(
        &mut w.ctrl,
        InputEvent::Keyboard { key: KeyId::MoveE, pressed: true, repeat: false },
    );
    // Right at yaw 0 is (0, 0, -1); the vertical axis is unrotated.
    update_step(&mut w, &cfg, SCALE, 0, SCALE, 0);
    assert_eq!(w.ctrl.position, Vec3 { x: 0, y: 3_000_000, z: -3_000_000 });
}

#[test]
fn test_update_zero_dt_changes_nothing() {
    let cfg = quiet_config();
    let mut w = world_with(&cfg, 0);
    handle_event(
        &mut w.ctrl,
        InputEvent::Keyboard { key: KeyId::MoveW, pressed: true, repeat: false },
    );
    let before = w.scene.positions.clone();
    update_step(&mut w, &cfg, 0, 0, SCALE, 0);
    assert_eq!(w.ctrl.position, Vec3 { x: 0, y: 0, z: 0 });
    assert_eq!(w.scene.positions, before);
}

#[test]
fn test_positions_static_without_follow() {
    let cfg = quiet_config();
    let mut w = world_with(&cfg, 0);
    let before = w.scene.positions.clone();
    for _ in 0..10 {
        update_step(&mut w, &cfg, 250_000, 0, SCALE, 0);
    }
    assert_eq!(w.scene.positions, before);
}

#[test]
fn test_spawn_grows_by_rate_times_frames() {
    let mut cfg = quiet_config();
    cfg.spawn_rate = 2;
    let mut w = world_with(&cfg, 0);
    let before = w.scene.positions.clone();
    for _ in 0..5 {
        update_step(&mut w, &cfg, 250_000, 0, SCALE, 0);
    }
    assert_eq!(w.scene.positions.len(), before.len() + 2 * 5);
    // The instances already placed are untouched.
    assert_eq!(&w.scene.positions[..before.len()], &before[..]);
}

#[test]
fn test_spawned_instances_lie_in_range() {
    let mut cfg = quiet_config();
    cfg.spawn_rate = 3;
    let mut w = world_with(&cfg, 0);
    update_step(&mut w, &cfg, 250_000, 0, SCALE, 0);
    for p in &w.scene.positions {
        for v in [p.x, p.y, p.z] {
            assert!(-RANGE <= v && v < RANGE);
        }
    }
}

#[test]
fn test_follow_step_is_exact_decay() {
    let mut cfg = quiet_config();
    cfg.follow_speed = SCALE; // 1.0 per second
    let mut w = world_with(&cfg, 0);
    let before = w.scene.positions.clone();
    let dt = 100_000; // 0.1 s, so alpha = 0.1 of the gap per frame
    update_step(&mut w, &cfg, dt, 0, SCALE, 0);
    // The camera rests at the origin (no intent), so every axis decays
    // toward 0 by exactly its truncated tenth.
    for (p, q) in before.iter().zip(w.scene.positions.iter()) {
        assert_eq!(q.x, expected_follow(p.x, 0, 100_000));
        assert_eq!(q.y, expected_follow(p.y, 0, 100_000));
        assert_eq!(q.z, expected_follow(p.z, 0, 100_000));
    }
}

#[test]
fn test_follow_converges_monotonically() {
    let mut cfg = quiet_config();
    cfg.follow_speed = 500_000; // 0.5 per second
    let mut w = world_with(&cfg, 0);
    let mut gaps: Vec<i64> = w.scene.positions.iter().map(|p| p.x.abs()).collect();
    for _ in 0..20 {
        update_step(&mut w, &cfg, 100_000, 0, SCALE, 0);
        let next: Vec<i64> = w.scene.positions.iter().map(|p| p.x.abs()).collect();
        for (g, n) in gaps.iter().zip(next.iter()) {
            assert!(n <= g);
        }
        gaps = next;
    }
}

#[test]
fn test_follow_saturates_without_overshoot() {
    // follow_speed * dt = 2.0 >= 1: the step saturates and every
    // instance lands exactly on the camera — no oscillation past it.
    let mut cfg = quiet_config();
    cfg.follow_speed = 20 * SCALE;
    let mut w = world_with(&cfg, 0);
    update_step(&mut w, &cfg, 100_000, 0, SCALE, 0);
    for p in &w.scene.positions {
        assert_eq!(*p, Vec3 { x: 0, y: 0, z: 0 });
    }
    // And it stays there.
    update_step(&mut w, &cfg, 100_000, 0, SCALE, 0);
    for p in &w.scene.positions {
        assert_eq!(*p, Vec3 { x: 0, y: 0, z: 0 });
    }
}

#[test]
fn test_standard_config_defaults() {
    let cfg = Config::standard();
    assert_eq!(cfg.instance_count, 1000);
    assert_eq!(cfg.spawn_range, 64_000_000);
    assert_eq!(cfg.follow_speed, 0);
    assert_eq!(cfg.spawn_rate, 0);
    assert_eq!(cfg.color, Rgb { r: 255, g: 0, b: 0 });
}

#[test]
fn test_update_respects_yaw_basis() {
    let cfg = quiet_config();
    let mut w = world_with(&cfg, 0);
    handle_event(
        &mut w.ctrl,
        InputEvent::Keyboard { key: KeyId::MoveW, pressed: true, repeat: false },
    );
    // A quarter turn: forward is now +z.
    update_step(&mut w, &cfg, SCALE, 0, 0, SCALE);
    assert_eq!(w.ctrl.position, Vec3 { x: 0, y: 0, z: 3_000_000 });
}

#[test]
fn test_spin_angle_values() {
    assert_eq!(spin_angle_at(0), 0);
    // 6.5 rad/s: one second spins 6.5 rad, two seconds 13 rad.
    assert_eq!(spin_angle_at(1_000_000), 6_500_000);
    assert_eq!(spin_angle_at(2_000_000), 13_000_000);
    // Half a millisecond: 6.5 * 0.0005 = 0.00325 rad.
    assert_eq!(spin_angle_at(500), 3_250);
}

#[test]
fn test_update_returns_spin_for_elapsed_time() {
    let cfg = quiet_config();
    let mut w = world_with(&cfg, 0);
    let spin = update_step(&mut w, &cfg, 16_000, 4_000_000, SCALE, 0);
    assert_eq!(spin, 26_000_000);
}
