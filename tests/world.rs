use agar_sim::collision::{Creature, Position, Viewport};
use agar_sim::movement::{build_movement, HeldDirections, DECELERATION, MAX_VELOCITY, UNIT};
use agar_sim::mutations::{handle_mouse_input, ButtonInteraction, Mutation, Mutations};
use agar_sim::state::AppState;
use agar_sim::world::{
    startup_game, update_camera_position, update_entity_movement, update_inert_jitter_velocity,
    update_keyboard_movement, update_mutant_jitter_velocity, World, MAX_ENTITIES,
};
use rand::rngs::StdRng;
use rand::SeedableRng;

fn at(x: i64, y: i64) -> Position {
    Position { x, y }
}

fn viewport() -> Viewport {
    Viewport { min: at(-40 * UNIT, -30 * UNIT), max: at(40 * UNIT, 30 * UNIT) }
}

const RIGHT: HeldDirections = HeldDirections { left: false, right: true, up: false, down: false };

#[test]
fn new_game_places_everyone() {
    let mut rng = StdRng::seed_from_u64(42);
    let world = startup_game(640 * UNIT, 360 * UNIT, MAX_ENTITIES, &mut rng);
    assert_eq!(world.npcs.len(), 500);
    assert_eq!(world.player.position, at(0, 0));
    assert_eq!(world.player.weight, UNIT as u64);
    assert_eq!(world.player.movement, build_movement());
    assert!(!world.player_mutations.controlled_movement);
    for npc in &world.npcs {
        assert_eq!(npc.weight, UNIT as u64);
        assert_eq!(npc.movement, build_movement());
        assert!(npc.position.x.abs() <= 640 * UNIT && npc.position.y.abs() <= 360 * UNIT);
    }
    let empty = startup_game(0, 0, 3, &mut rng);
    assert!(empty.npcs.iter().all(|n| n.position == at(0, 0)));
}

#[test]
fn npc_count_constant_over_many_ticks() {
    let mut rng = StdRng::seed_from_u64(8);
    let mut world = startup_game(40 * UNIT, 30 * UNIT, 60, &mut rng);
    let start_weight = world.player.weight;
    let mut last_weight = start_weight;
    for _ in 0..300 {
        world.step(HeldDirections::default(), 16_000, viewport(), &mut rng);
        assert_eq!(world.npcs.len(), 60);
        assert!(world.player.weight >= last_weight);
        last_weight = world.player.weight;
    }
    assert!(world.player.weight > start_weight);
}

#[test]
fn controlled_player_follows_input_only() {
    let mut rng = StdRng::seed_from_u64(4);
    let mut world = startup_game(10 * UNIT, 10 * UNIT, 5, &mut rng);
    world.player_mutations.controlled_movement = true;
    for tick in 1..=4 {
        world.step(RIGHT, 0, viewport(), &mut rng);
        assert_eq!(world.player.movement.velocity_x, tick * (UNIT - DECELERATION));
        assert_eq!(world.player.movement.velocity_y, 0);
        assert_eq!((world.player.movement.signum_x, world.player.movement.signum_y), (1, 1));
    }
}

#[test]
fn autonomous_player_ignores_input() {
    let mut rng = StdRng::seed_from_u64(4);
    let mut player = Creature { movement: build_movement(), position: at(0, 0), weight: UNIT as u64 };
    let before = player;
    update_keyboard_movement(RIGHT, &mut player, Mutations::default());
    assert_eq!(player, before);
    update_mutant_jitter_velocity(&mut player, Mutations { controlled_movement: true }, &mut rng);
    assert_eq!(player, before);
    let mut moved = false;
    for _ in 0..10 {
        update_mutant_jitter_velocity(&mut player, Mutations::default(), &mut rng);
        moved |= player.movement.velocity_x != 0 || player.movement.velocity_y != 0;
        assert!(player.movement.velocity_x.abs() <= MAX_VELOCITY);
    }
    assert!(moved);
    assert_eq!(player.position, before.position);
}

#[test]
fn inert_jitter_touches_only_velocity() {
    let mut rng = StdRng::seed_from_u64(12);
    let npc = Creature { movement: build_movement(), position: at(3, 4), weight: 9 };
    let mut npcs = vec![npc; 10];
    update_inert_jitter_velocity(&mut npcs, &mut rng);
    assert_eq!(npcs.len(), 10);
    for n in &npcs {
        assert_eq!((n.position, n.weight), (at(3, 4), 9));
        assert!(n.movement.velocity_x.abs() <= MAX_VELOCITY);
    }
    assert!(npcs.iter().any(|n| n.movement != npc.movement));
}

#[test]
fn movement_integrates_velocity_over_time() {
    let mut m = build_movement();
    m.velocity_x = 2 * UNIT;
    m.velocity_y = -3;
    let mut player = Creature { movement: m, position: at(10, 10), weight: UNIT as u64 };
    let mut npcs = vec![Creature { movement: m, position: at(i64::MAX - 5, i64::MIN + 1), weight: 1 }];
    update_entity_movement(&mut player, &mut npcs, 500_000);
    // Two units per second for half a second: one unit; -1.5 steps truncates to -1.
    assert_eq!(player.position, at(10 + UNIT, 9));
    assert_eq!(npcs[0].position, at(i64::MAX, i64::MIN));
}

#[test]
fn camera_follows_player_at_half_weight() {
    let player = Creature { movement: build_movement(), position: at(-7, 9), weight: 3 * UNIT as u64 };
    let camera = update_camera_position(&player);
    assert_eq!(camera.position, at(-7, 9));
    assert_eq!(camera.scale, 1_500_000);
}

#[test]
fn pressing_the_card_selects_controlled_movement() {
    let mut mutations = Mutations::default();
    assert_eq!(handle_mouse_input(ButtonInteraction::Hovered, Mutation::ControlledMovement, &mut mutations), None);
    assert_eq!(handle_mouse_input(ButtonInteraction::Idle, Mutation::ControlledMovement, &mut mutations), None);
    assert!(!mutations.controlled_movement);
    let next = handle_mouse_input(ButtonInteraction::Pressed, Mutation::ControlledMovement, &mut mutations);
    assert_eq!(next, Some(AppState::Game));
    assert!(mutations.controlled_movement);
    assert_eq!(AppState::default(), AppState::Menu);
}

#[test]
fn world_step_relocates_consumed_npcs() {
    let mut rng = StdRng::seed_from_u64(21);
    let npc = Creature { movement: build_movement(), position: at(UNIT, UNIT), weight: UNIT as u64 };
    let mut world = World {
        player: Creature { movement: build_movement(), position: at(0, 0), weight: UNIT as u64 },
        player_mutations: Mutations { controlled_movement: true },
        npcs: vec![npc; 3],
    };
    let camera = world.step(HeldDirections::default(), 0, viewport(), &mut rng);
    assert_eq!(camera.scale, UNIT as u64 / 2);
    assert_eq!(world.npcs.len(), 3);
    assert!(world.player.weight > UNIT as u64);
}
