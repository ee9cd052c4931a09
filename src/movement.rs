//! Per-entity velocity: the autonomous random walk ("jitter") and the
//! input-driven rule with deceleration.
use crate::random::{draw_between, draw_ratio};
use rand::rngs::StdRng;
use vstd::prelude::*;

verus! {

/// One world unit in the fixed-point scale.
pub const UNIT: i64 = 1_000_000;

/// Bound on each velocity component of a fresh movement: ten units per second.
pub const MAX_VELOCITY: i64 = 10 * UNIT;

/// Largest bound a movement may carry, so that no update can overflow.
pub const VELOCITY_LIMIT: i64 = 1_000_000_000_000_000;

/// Chance, per axis and per tick, that jitter turns the preferred direction:
/// `DIRECTION_CHANGE_NUMERATOR` in `DIRECTION_CHANGE_DENOMINATOR`.
pub const DIRECTION_CHANGE_NUMERATOR: u32 = 3;

/// See [`DIRECTION_CHANGE_NUMERATOR`].
pub const DIRECTION_CHANGE_DENOMINATOR: u32 = 100;

/// Speed gained on an axis in each tick that its direction is held.
pub const INPUT_ACCELERATION: i64 = UNIT;

/// Speed lost in each tick of the controlled rule on each moving axis.
pub const DECELERATION: i64 = 500_000;

/// Velocity state of one entity.
#[derive(Clone, Copy, Debug, PartialEq, Eq)]
pub struct Movement {
    /// Preferred direction along x: `1` or `-1`.
    pub signum_x: i8,
    /// Preferred direction along y: `1` or `-1`.
    pub signum_y: i8,
    pub velocity_x: i64,
    pub velocity_y: i64,
    /// Bound on `|velocity_x|`, fixed at creation.
    pub velocity_x_max: i64,
    /// Bound on `|velocity_y|`, fixed at creation.
    pub velocity_y_max: i64,
}

/// `v` held within `[-max, max]`: a value at or past a bound becomes that bound.
pub open spec fn clamped(v: int, max: int) -> int {
    if v >= max {
        max
    } else if v <= -max {
        -max
    } else {
        v
    }
}

/// The direction `s`, turned round when `flip` holds.
pub open spec fn flipped(s: i8, flip: bool) -> int {
    if flip {
        -s
    } else {
        s as int
    }
}

/// The offset `d` taken along the direction `s`.
pub open spec fn along(d: int, s: i8) -> int {
    if s > 0 {
        d
    } else {
        -d
    }
}

impl Movement {
    /// Directions are `±1`, bounds lie in `[0, VELOCITY_LIMIT]`, and each
    /// velocity component lies within its bound.
    pub open spec fn wf(self) -> bool {
        &&& self.signum_x == 1 || self.signum_x == -1
        &&& self.signum_y == 1 || self.signum_y == -1
        &&& 0 <= self.velocity_x_max <= VELOCITY_LIMIT
        &&& 0 <= self.velocity_y_max <= VELOCITY_LIMIT
        &&& -self.velocity_x_max <= self.velocity_x <= self.velocity_x_max
        &&& -self.velocity_y_max <= self.velocity_y <= self.velocity_y_max
    }

    /// A movement as created: at rest, both directions `+1`, both bounds
    /// `MAX_VELOCITY`.
    pub open spec fn is_fresh(self) -> bool {
        &&& self.signum_x == 1 && self.signum_y == 1
        &&& self.velocity_x == 0 && self.velocity_y == 0
        &&& self.velocity_x_max == MAX_VELOCITY && self.velocity_y_max == MAX_VELOCITY
    }

    /// Both movements have the same velocity bounds.
    pub open spec fn same_bounds(self, other: Movement) -> bool {
        self.velocity_x_max == other.velocity_x_max && self.velocity_y_max == other.velocity_y_max
    }

    /// `self` is what one step of jitter makes of `old` with the offsets `dx`,
    /// `dy` and the direction turns `flip_x`, `flip_y`.
    pub open spec fn jitter_outcome(
        self,
        old: Movement,
        dx: int,
        dy: int,
        flip_x: bool,
        flip_y: bool,
    ) -> bool {
        &&& self.same_bounds(old)
        &&& self.signum_x == flipped(old.signum_x, flip_x)
        &&& self.signum_y == flipped(old.signum_y, flip_y)
        &&& self.velocity_x == clamped(old.velocity_x + along(dx, self.signum_x), old.velocity_x_max as int)
        &&& self.velocity_y == clamped(old.velocity_y + along(dy, self.signum_y), old.velocity_y_max as int)
    }

    /// `self` is a possible outcome of one step of jitter from `old`: some
    /// offsets within the bounds and some direction turns give it.
    pub open spec fn is_jitter_of(self, old: Movement) -> bool {
        exists|dx: int, dy: int, flip_x: bool, flip_y: bool|
            0 <= dx <= old.velocity_x_max && 0 <= dy <= old.velocity_y_max && #[trigger] self.jitter_outcome(
                old,
                dx,
                dy,
                flip_x,
                flip_y,
            )
    }
}

/// The directions held during one tick.
#[derive(Clone, Copy, Debug, Default, PartialEq, Eq)]
pub struct HeldDirections {
    pub left: bool,
    pub right: bool,
    pub up: bool,
    pub down: bool,
}

/// Speed added on one axis by input: `+INPUT_ACCELERATION` for `positive`,
/// `-INPUT_ACCELERATION` for `negative`; both together cancel.
pub open spec fn input_push(negative: bool, positive: bool) -> int {
    (if positive { INPUT_ACCELERATION as int } else { 0 }) - (if negative { INPUT_ACCELERATION as int } else { 0 })
}

/// `v` moved `DECELERATION` towards zero; it may pass zero by less than a step.
pub open spec fn decelerated(v: int) -> int {
    if v > 0 {
        v - DECELERATION
    } else if v < 0 {
        v + DECELERATION
    } else {
        v
    }
}

/// The velocity component `v` after one controlled tick: input pushes it,
/// deceleration pulls it towards zero, and the bound `max` holds it.
pub open spec fn controlled_velocity(v: int, negative: bool, positive: bool, max: int) -> int {
    clamped(decelerated(v + input_push(negative, positive)), max)
}

impl Movement {
    /// `self` is what one controlled tick with `held` makes of `old`.
    pub open spec fn controlled_outcome(self, old: Movement, held: HeldDirections) -> bool {
        &&& self.same_bounds(old)
        &&& self.signum_x == old.signum_x
        &&& self.signum_y == old.signum_y
        &&& self.velocity_x == controlled_velocity(
            old.velocity_x as int,
            held.left,
            held.right,
            old.velocity_x_max as int,
        )
        &&& self.velocity_y == controlled_velocity(
            old.velocity_y as int,
            held.down,
            held.up,
            old.velocity_y_max as int,
        )
    }
}

/// A resting movement: zero velocity, both directions `+1`, bounds `MAX_VELOCITY`.
pub fn build_movement() -> (r: Movement)
    ensures
        r.wf(),
        r.is_fresh(),
{
    Movement {
        signum_x: 1,
        signum_y: 1,
        velocity_x: 0,
        velocity_y: 0,
        velocity_x_max: MAX_VELOCITY,
        velocity_y_max: MAX_VELOCITY,
    }
}

/// Holds each velocity component within its bound.
fn clamp_velocity(movement: &mut Movement)
    requires
        0 <= old(movement).velocity_x_max,
        0 <= old(movement).velocity_y_max,
    ensures
        final(movement).velocity_x == clamped(old(movement).velocity_x as int, old(movement).velocity_x_max as int),
        final(movement).velocity_y == clamped(old(movement).velocity_y as int, old(movement).velocity_y_max as int),
        final(movement).signum_x == old(movement).signum_x,
        final(movement).signum_y == old(movement).signum_y,
        final(movement).same_bounds(*old(movement)),
{
    if movement.velocity_x >= movement.velocity_x_max {
        movement.velocity_x = movement.velocity_x_max;
    } else if movement.velocity_x <= -movement.velocity_x_max {
        movement.velocity_x = -movement.velocity_x_max;
    }
    if movement.velocity_y >= movement.velocity_y_max {
        movement.velocity_y = movement.velocity_y_max;
    } else if movement.velocity_y <= -movement.velocity_y_max {
        movement.velocity_y = -movement.velocity_y_max;
    }
}

/// Moves each velocity component `DECELERATION` towards zero.
fn apply_deceleration(velocity: &mut Movement)
    requires
        -2 * VELOCITY_LIMIT <= old(velocity).velocity_x <= 2 * VELOCITY_LIMIT,
        -2 * VELOCITY_LIMIT <= old(velocity).velocity_y <= 2 * VELOCITY_LIMIT,
    ensures
        final(velocity).velocity_x == decelerated(old(velocity).velocity_x as int),
        final(velocity).velocity_y == decelerated(old(velocity).velocity_y as int),
        final(velocity).signum_x == old(velocity).signum_x,
        final(velocity).signum_y == old(velocity).signum_y,
        final(velocity).same_bounds(*old(velocity)),
{
    if velocity.velocity_x > 0 {
        velocity.velocity_x = velocity.velocity_x - DECELERATION;
    } else if velocity.velocity_x < 0 {
        velocity.velocity_x = velocity.velocity_x + DECELERATION;
    }
    if velocity.velocity_y > 0 {
        velocity.velocity_y = velocity.velocity_y - DECELERATION;
    } else if velocity.velocity_y < 0 {
        velocity.velocity_y = velocity.velocity_y + DECELERATION;
    }
}

/// One controlled tick: each held direction pushes its axis by
/// `INPUT_ACCELERATION` (left and down negative, right and up positive), then
/// both axes decelerate and are held within their bounds, as jitter holds them.
pub fn build_keyboard_movement(held: HeldDirections, velocity: &mut Movement)
    requires
        old(velocity).wf(),
    ensures
        final(velocity).wf(),
        final(velocity).controlled_outcome(*old(velocity), held),
{
    if held.left {
        velocity.velocity_x = velocity.velocity_x - INPUT_ACCELERATION;
    }
    if held.right {
        velocity.velocity_x = velocity.velocity_x + INPUT_ACCELERATION;
    }
    if held.up {
        velocity.velocity_y = velocity.velocity_y + INPUT_ACCELERATION;
    }
    if held.down {
        velocity.velocity_y = velocity.velocity_y - INPUT_ACCELERATION;
    }
    apply_deceleration(velocity);
    clamp_velocity(velocity);
}

/// One step of jitter with the draws given: turn each direction where asked,
/// add each offset along its direction, then clamp. The clamp goes by the
/// velocity's own sign, which can differ from the preferred direction; the
/// two are left to diverge.
pub fn jitter_step(movement: &mut Movement, dx: i64, dy: i64, flip_x: bool, flip_y: bool)
    requires
        old(movement).wf(),
        0 <= dx <= old(movement).velocity_x_max,
        0 <= dy <= old(movement).velocity_y_max,
    ensures
        final(movement).wf(),
        final(movement).jitter_outcome(*old(movement), dx as int, dy as int, flip_x, flip_y),
{
    if flip_x {
        movement.signum_x = -movement.signum_x;
    }
    if flip_y {
        movement.signum_y = -movement.signum_y;
    }
    if movement.signum_x > 0 {
        movement.velocity_x = movement.velocity_x + dx;
    } else {
        movement.velocity_x = movement.velocity_x - dx;
    }
    if movement.signum_y > 0 {
        movement.velocity_y = movement.velocity_y + dy;
    } else {
        movement.velocity_y = movement.velocity_y - dy;
    }
    clamp_velocity(movement);
}

/// One step of jitter: draw an offset in `[0, bound]` per axis, turn each
/// direction with chance `DIRECTION_CHANGE_NUMERATOR / DIRECTION_CHANGE_DENOMINATOR`,
/// then apply [`jitter_step`]. Every outcome keeps `|v| <= bound` on both axes.
pub fn calculate_jitter(rng: &mut StdRng, movement: &mut Movement)
    requires
        old(movement).wf(),
    ensures
        final(movement).wf(),
        final(movement).is_jitter_of(*old(movement)),
        -final(movement).velocity_x_max <= final(movement).velocity_x <= final(movement).velocity_x_max,
        -final(movement).velocity_y_max <= final(movement).velocity_y <= final(movement).velocity_y_max,
{
    let dx = draw_between(rng, 0, movement.velocity_x_max);
    let dy = draw_between(rng, 0, movement.velocity_y_max);
    let flip_x = draw_ratio(rng, DIRECTION_CHANGE_NUMERATOR, DIRECTION_CHANGE_DENOMINATOR);
    let flip_y = draw_ratio(rng, DIRECTION_CHANGE_NUMERATOR, DIRECTION_CHANGE_DENOMINATOR);
    let ghost before = *movement;
    jitter_step(movement, dx, dy, flip_x, flip_y);
    assert(movement.jitter_outcome(before, dx as int, dy as int, flip_x, flip_y));
}

} // verus!
