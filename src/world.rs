//! The simulation driver: spawning, the per-tick systems in their order, and
//! the camera that follows the player.
use crate::collision::{
    consumed, handle_collisions, lemma_growth_monotone, Creature, Position, Viewport, MAX_WEIGHT,
};
use crate::movement::{
    build_keyboard_movement, build_movement, calculate_jitter, HeldDirections, Movement, UNIT,
};
use crate::mutations::Mutations;
use crate::random::draw_between;
use rand::rngs::StdRng;
use vstd::prelude::*;

verus! {

/// Number of NPCs in a new game.
pub const MAX_ENTITIES: usize = 500;

/// Where the camera stands and how far it zooms out.
#[derive(Clone, Copy, Debug, PartialEq, Eq)]
pub struct Camera {
    pub position: Position,
    /// Zoom factor of the projection, in the fixed-point scale.
    pub scale: u64,
}

/// The player, the mutations it carries, and the NPCs.
#[derive(Debug)]
pub struct World {
    pub player: Creature,
    pub player_mutations: Mutations,
    pub npcs: Vec<Creature>,
}

/// Every NPC's movement is well formed.
pub open spec fn npcs_wf(npcs: Seq<Creature>) -> bool {
    forall|i: int| 0 <= i < npcs.len() ==> (#[trigger] npcs[i]).movement.wf()
}

impl World {
    /// Movements are well formed and the player's weight is positive and capped.
    pub open spec fn wf(&self) -> bool {
        &&& self.player.movement.wf()
        &&& 0 < self.player.weight <= MAX_WEIGHT
        &&& npcs_wf(self.npcs@)
    }
}

/// `new` is `old` with a movement that one step of jitter gives.
pub open spec fn jittered_creature(new: Creature, old: Creature) -> bool {
    &&& new.movement.wf()
    &&& new.movement.is_jitter_of(old.movement)
    &&& new.position == old.position
    &&& new.weight == old.weight
}

/// A new game: the player rests at the origin with weight one unit and no
/// mutation; `count` resting NPCs of weight one unit stand at points drawn
/// within `[-half_width, half_width] x [-half_height, half_height]`.
pub fn startup_game(half_width: i64, half_height: i64, count: usize, rng: &mut StdRng) -> (world: World)
    requires
        0 <= half_width,
        0 <= half_height,
    ensures
        world.wf(),
        world.player.movement.is_fresh(),
        world.player.position == (Position { x: 0, y: 0 }),
        world.player.weight == UNIT,
        !world.player_mutations.controlled_movement,
        world.npcs@.len() == count,
        forall|i: int|
            0 <= i < count ==> {
                &&& (#[trigger] world.npcs@[i]).movement.is_fresh()
                &&& world.npcs@[i].weight == UNIT
                &&& -half_width <= world.npcs@[i].position.x <= half_width
                &&& -half_height <= world.npcs@[i].position.y <= half_height
            },
{
    let player = Creature { movement: build_movement(), position: Position { x: 0, y: 0 }, weight: UNIT as u64 };
    let mut npcs: Vec<Creature> = Vec::new();
    let mut i: usize = 0;
    while i < count
        invariant
            npcs@.len() == i,
            i <= count,
            0 <= half_width,
            0 <= half_height,
            forall|j: int|
                0 <= j < i ==> {
                    &&& (#[trigger] npcs@[j]).movement.is_fresh()
                    &&& npcs@[j].movement.wf()
                    &&& npcs@[j].weight == UNIT
                    &&& -half_width <= npcs@[j].position.x <= half_width
                    &&& -half_height <= npcs@[j].position.y <= half_height
                },
        decreases count - i,
    {
        let x = draw_between(rng, -half_width, half_width);
        let y = draw_between(rng, -half_height, half_height);
        npcs.push(Creature { movement: build_movement(), position: Position { x, y }, weight: UNIT as u64 });
        i = i + 1;
    }
    World { player, player_mutations: Mutations { controlled_movement: false }, npcs }
}

/// One step of jitter for every NPC.
pub fn update_inert_jitter_velocity(npcs: &mut Vec<Creature>, rng: &mut StdRng)
    requires
        npcs_wf(old(npcs)@),
    ensures
        final(npcs)@.len() == old(npcs)@.len(),
        forall|i: int|
            0 <= i < old(npcs)@.len() ==> jittered_creature(#[trigger] final(npcs)@[i], old(npcs)@[i]),
{
    let ghost start = npcs@;
    let mut i: usize = 0;
    while i < npcs.len()
        invariant
            npcs@.len() == start.len(),
            i <= start.len(),
            npcs_wf(start),
            start == old(npcs)@,
            forall|j: int| 0 <= j < i ==> jittered_creature(#[trigger] npcs@[j], start[j]),
            forall|j: int| i <= j < start.len() ==> #[trigger] npcs@[j] == start[j],
        decreases start.len() - i,
    {
        let mut npc = npcs[i];
        assert(npc.movement.wf());
        calculate_jitter(rng, &mut npc.movement);
        npcs.set(i, npc);
        i = i + 1;
    }
}

/// One step of jitter for the player, unless its movement is controlled.
pub fn update_mutant_jitter_velocity(player: &mut Creature, mutations: Mutations, rng: &mut StdRng)
    requires
        old(player).movement.wf(),
    ensures
        mutations.controlled_movement ==> *final(player) == *old(player),
        !mutations.controlled_movement ==> jittered_creature(*final(player), *old(player)),
{
    if mutations.controlled_movement {
        return;
    }
    calculate_jitter(rng, &mut player.movement);
}

/// One controlled tick for the player when its movement is controlled;
/// nothing otherwise.
pub fn update_keyboard_movement(held: HeldDirections, player: &mut Creature, mutations: Mutations)
    requires
        old(player).movement.wf(),
    ensures
        !mutations.controlled_movement ==> *final(player) == *old(player),
        mutations.controlled_movement ==> {
            &&& final(player).movement.wf()
            &&& final(player).movement.controlled_outcome(old(player).movement, held)
            &&& final(player).position == old(player).position
            &&& final(player).weight == old(player).weight
        },
{
    if !mutations.controlled_movement {
        return;
    }
    build_keyboard_movement(held, &mut player.movement);
}

/// Distance covered along one axis at velocity `v` (per second) during
/// `micros` microseconds, truncated towards zero.
pub open spec fn displacement(v: int, micros: int) -> int {
    if v >= 0 {
        v * micros / 1_000_000
    } else {
        -((-v) * micros / 1_000_000)
    }
}

/// `x` held within the range of `i64`.
pub open spec fn saturated(x: int) -> int {
    if x > i64::MAX {
        i64::MAX as int
    } else if x < i64::MIN {
        i64::MIN as int
    } else {
        x
    }
}

/// Where `position` is after moving at `movement`'s velocity for `micros`
/// microseconds; a coordinate that would leave the `i64` range stops at its end.
pub open spec fn advanced(position: Position, movement: Movement, micros: int) -> Position {
    Position {
        x: saturated(position.x + displacement(movement.velocity_x as int, micros)) as i64,
        y: saturated(position.y + displacement(movement.velocity_y as int, micros)) as i64,
    }
}

/// One coordinate moved at velocity `v` for `micros` microseconds.
fn advance_axis(p: i64, v: i64, micros: u32) -> (r: i64)
    ensures
        r == saturated(p + displacement(v as int, micros as int)),
{
    let magnitude: u128 = if v < 0 { (-(v as i128)) as u128 } else { v as u128 };
    assert(magnitude * micros <= 0x8000_0000_0000_0000 * 0xffff_ffff) by (nonlinear_arith)
        requires
            magnitude <= 0x8000_0000_0000_0000,
            micros <= 0xffff_ffff,
    ;
    let d: u128 = magnitude * (micros as u128) / 1_000_000;
    assert(d <= magnitude * micros);
    let moved: i128 = if v < 0 { p as i128 - d as i128 } else { p as i128 + d as i128 };
    if moved > i64::MAX as i128 {
        i64::MAX
    } else if moved < i64::MIN as i128 {
        i64::MIN
    } else {
        moved as i64
    }
}

/// `creature` moved at its velocity for `micros` microseconds.
fn advance(creature: &mut Creature, micros: u32)
    ensures
        final(creature).position == advanced(old(creature).position, old(creature).movement, micros as int),
        final(creature).movement == old(creature).movement,
        final(creature).weight == old(creature).weight,
{
    let x = advance_axis(creature.position.x, creature.movement.velocity_x, micros);
    let y = advance_axis(creature.position.y, creature.movement.velocity_y, micros);
    creature.position = Position { x, y };
}

/// Moves the player and every NPC at its velocity for `micros` microseconds.
pub fn update_entity_movement(player: &mut Creature, npcs: &mut Vec<Creature>, micros: u32)
    ensures
        final(player).position == advanced(old(player).position, old(player).movement, micros as int),
        final(player).movement == old(player).movement,
        final(player).weight == old(player).weight,
        final(npcs)@.len() == old(npcs)@.len(),
        forall|i: int|
            0 <= i < old(npcs)@.len() ==> {
                &&& (#[trigger] final(npcs)@[i]).position == advanced(
                    old(npcs)@[i].position,
                    old(npcs)@[i].movement,
                    micros as int,
                )
                &&& final(npcs)@[i].movement == old(npcs)@[i].movement
                &&& final(npcs)@[i].weight == old(npcs)@[i].weight
            },
{
    advance(player, micros);
    let ghost start = npcs@;
    let mut i: usize = 0;
    while i < npcs.len()
        invariant
            npcs@.len() == start.len(),
            i <= start.len(),
            start == old(npcs)@,
            forall|j: int|
                0 <= j < i ==> {
                    &&& (#[trigger] npcs@[j]).position == advanced(
                        start[j].position,
                        start[j].movement,
                        micros as int,
                    )
                    &&& npcs@[j].movement == start[j].movement
                    &&& npcs@[j].weight == start[j].weight
                },
            forall|j: int| i <= j < start.len() ==> #[trigger] npcs@[j] == start[j],
        decreases start.len() - i,
    {
        let mut npc = npcs[i];
        advance(&mut npc, micros);
        npcs.set(i, npc);
        i = i + 1;
    }
}

/// The camera centred on the player, zoomed out by half the player's weight.
pub fn update_camera_position(player: &Creature) -> (camera: Camera)
    ensures
        camera.position == player.position,
        camera.scale == player.weight / 2,
{
    Camera { position: player.position, scale: player.weight / 2 }
}

impl World {
    /// One tick, system by system: jitter for the NPCs; for the player either
    /// jitter or, when its movement is controlled, the controlled rule with
    /// `held`, never both; every entity moves for `micros` microseconds; the
    /// camera follows the player; then one collision pass, relocating consumed
    /// NPCs within `viewport`. The number of NPCs never changes, and the
    /// player never loses weight. Returns the camera.
    pub fn step(&mut self, held: HeldDirections, micros: u32, viewport: Viewport, rng: &mut StdRng) -> (camera: Camera)
        requires
            old(self).wf(),
            viewport.wf(),
        ensures
            final(self).wf(),
            final(self).npcs@.len() == old(self).npcs@.len(),
            final(self).player_mutations == old(self).player_mutations,
            old(self).player_mutations.controlled_movement ==> final(self).player.movement.controlled_outcome(
                old(self).player.movement,
                held,
            ),
            !old(self).player_mutations.controlled_movement ==> final(self).player.movement.is_jitter_of(
                old(self).player.movement,
            ),
            forall|i: int|
                0 <= i < old(self).npcs@.len() ==> (#[trigger] final(self).npcs@[i]).movement.is_jitter_of(
                    old(self).npcs@[i].movement,
                ),
            old(self).player.weight <= final(self).player.weight,
            final(self).player.position == advanced(
                old(self).player.position,
                final(self).player.movement,
                micros as int,
            ),
            camera.position == final(self).player.position,
            camera.scale == old(self).player.weight / 2,
    {
        let mutations = self.player_mutations;
        update_inert_jitter_velocity(&mut self.npcs, rng);
        let ghost jittered = self.npcs@;
        update_mutant_jitter_velocity(&mut self.player, mutations, rng);
        update_keyboard_movement(held, &mut self.player, mutations);
        update_entity_movement(&mut self.player, &mut self.npcs, micros);
        let camera = update_camera_position(&self.player);
        let ghost before = *self;
        handle_collisions(&mut self.player, &mut self.npcs, viewport, rng);
        proof {
            lemma_growth_monotone(
                before.player.weight as int,
                consumed(before.player.weight as int, before.player.position, before.npcs@),
            );
            assert forall|i: int| 0 <= i < self.npcs@.len() implies (#[trigger] self.npcs@[i]).movement.wf()
                && self.npcs@[i].movement.is_jitter_of(old(self).npcs@[i].movement) by {
                assert(before.npcs@[i].movement == jittered[i].movement);
            }
        }
        camera
    }
}

} // verus!
