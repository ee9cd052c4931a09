use agar_sim::movement::{
    build_keyboard_movement, build_movement, calculate_jitter, jitter_step, HeldDirections,
    DECELERATION, MAX_VELOCITY, UNIT,
};
use rand::rngs::StdRng;
use rand::SeedableRng;

fn held(left: bool, right: bool, up: bool, down: bool) -> HeldDirections {
    HeldDirections { left, right, up, down }
}

#[test]
fn fresh_movement_rests_with_default_bounds() {
    let m = build_movement();
    assert_eq!((m.signum_x, m.signum_y), (1, 1));
    assert_eq!((m.velocity_x, m.velocity_y), (0, 0));
    assert_eq!((m.velocity_x_max, m.velocity_y_max), (MAX_VELOCITY, MAX_VELOCITY));
}

#[test]
fn jitter_keeps_velocity_within_bounds() {
    let mut rng = StdRng::seed_from_u64(7);
    let mut movements = vec![build_movement(); 20];
    for _ in 0..2_000 {
        for m in movements.iter_mut() {
            calculate_jitter(&mut rng, m);
            assert!(m.velocity_x.abs() <= m.velocity_x_max);
            assert!(m.velocity_y.abs() <= m.velocity_y_max);
            assert!(m.signum_x == 1 || m.signum_x == -1);
            assert!(m.signum_y == 1 || m.signum_y == -1);
        }
    }
}

#[test]
fn jitter_reaches_the_bound() {
    let mut rng = StdRng::seed_from_u64(11);
    let mut m = build_movement();
    let mut seen_bound = false;
    for _ in 0..1_000 {
        calculate_jitter(&mut rng, &mut m);
        if m.velocity_x.abs() == MAX_VELOCITY {
            seen_bound = true;
        }
    }
    assert!(seen_bound);
}

#[test]
fn direction_flip_rate_matches_its_chance() {
    let mut rng = StdRng::seed_from_u64(2024);
    let mut m = build_movement();
    let ticks = 200_000;
    let mut flips = 0;
    for _ in 0..ticks {
        let before = m.signum_x;
        calculate_jitter(&mut rng, &mut m);
        if m.signum_x != before {
            flips += 1;
        }
    }
    let rate = flips as f64 / ticks as f64;
    assert!((rate - 0.03).abs() < 0.003, "flip rate {}", rate);
}

#[test]
fn jitter_step_adds_offset_along_direction() {
    let mut m = build_movement();
    jitter_step(&mut m, 3 * UNIT, 2 * UNIT, false, false);
    assert_eq!((m.velocity_x, m.velocity_y), (3 * UNIT, 2 * UNIT));
    jitter_step(&mut m, 4 * UNIT, UNIT, true, false);
    assert_eq!((m.signum_x, m.signum_y), (-1, 1));
    assert_eq!((m.velocity_x, m.velocity_y), (-UNIT, 3 * UNIT));
}

#[test]
fn jitter_step_clamps_to_numeric_sign() {
    let mut m = build_movement();
    jitter_step(&mut m, 8 * UNIT, 0, false, false);
    jitter_step(&mut m, 9 * UNIT, 0, false, false);
    assert_eq!(m.velocity_x, MAX_VELOCITY);
    // Turning round keeps the positive velocity's sign while the direction is negative.
    jitter_step(&mut m, UNIT, 0, true, false);
    assert_eq!(m.signum_x, -1);
    assert_eq!(m.velocity_x, 9 * UNIT);
    let mut n = build_movement();
    n.velocity_y = -9 * UNIT;
    n.signum_y = -1;
    jitter_step(&mut n, 0, 5 * UNIT, false, false);
    assert_eq!(n.velocity_y, -MAX_VELOCITY);
}

#[test]
fn held_direction_accelerates_then_decelerates() {
    let mut m = build_movement();
    build_keyboard_movement(held(false, true, false, false), &mut m);
    assert_eq!(m.velocity_x, UNIT - DECELERATION);
    build_keyboard_movement(held(false, true, false, false), &mut m);
    assert_eq!(m.velocity_x, 2 * (UNIT - DECELERATION));
    build_keyboard_movement(held(false, false, false, false), &mut m);
    assert_eq!(m.velocity_x, 2 * (UNIT - DECELERATION) - DECELERATION);
    build_keyboard_movement(held(false, false, true, false), &mut m);
    assert_eq!(m.velocity_y, UNIT - DECELERATION);
    build_keyboard_movement(held(false, false, false, true), &mut m);
    build_keyboard_movement(held(false, false, false, true), &mut m);
    assert_eq!(m.velocity_y, -(UNIT - DECELERATION) + DECELERATION - DECELERATION);
}

#[test]
fn deceleration_may_overshoot_zero() {
    let mut m = build_movement();
    m.velocity_x = 300_000;
    m.velocity_y = -300_000;
    build_keyboard_movement(held(false, false, false, false), &mut m);
    assert_eq!(m.velocity_x, -200_000);
    assert_eq!(m.velocity_y, 200_000);
    build_keyboard_movement(held(false, false, false, false), &mut m);
    assert_eq!(m.velocity_x, 300_000);
    assert_eq!(m.velocity_y, -300_000);
}

#[test]
fn opposite_directions_cancel() {
    let mut m = build_movement();
    build_keyboard_movement(held(true, true, true, true), &mut m);
    assert_eq!((m.velocity_x, m.velocity_y), (0, 0));
}

#[test]
fn controlled_velocity_is_held_within_bounds() {
    let mut m = build_movement();
    for _ in 0..100 {
        build_keyboard_movement(held(true, false, true, false), &mut m);
    }
    assert_eq!(m.velocity_x, -MAX_VELOCITY);
    assert_eq!(m.velocity_y, MAX_VELOCITY);
    assert_eq!((m.signum_x, m.signum_y), (1, 1));
}
