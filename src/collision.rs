//! Player-versus-NPC contact: the reach test, the growth rule, and the pass
//! that consumes and relocates every NPC within reach.
use crate::movement::{Movement, UNIT};
use crate::random::draw_between;
use rand::rngs::StdRng;
use vstd::arithmetic::div_mod::{lemma_div_non_zero, lemma_div_pos_is_pos};
use vstd::prelude::*;

verus! {

/// Cap on any weight, so that reach and growth stay within `u64`.
pub const MAX_WEIGHT: u64 = 1_000_000_000_000_000_000;

/// Capture radius per unit of player weight: the player reaches `10 * weight`.
pub const REACH_PER_WEIGHT: u64 = 10;

/// A point in world space.
#[derive(Clone, Copy, Debug, PartialEq, Eq)]
pub struct Position {
    pub x: i64,
    pub y: i64,
}

/// An axis-aligned rectangle of world space, corners included.
#[derive(Clone, Copy, Debug, PartialEq, Eq)]
pub struct Viewport {
    pub min: Position,
    pub max: Position,
}

impl Viewport {
    /// The rectangle is not empty.
    pub open spec fn wf(self) -> bool {
        self.min.x <= self.max.x && self.min.y <= self.max.y
    }

    pub open spec fn contains(self, p: Position) -> bool {
        self.min.x <= p.x <= self.max.x && self.min.y <= p.y <= self.max.y
    }
}

/// A simulated actor: the player or one NPC.
#[derive(Clone, Copy, Debug, PartialEq, Eq)]
pub struct Creature {
    pub movement: Movement,
    pub position: Position,
    pub weight: u64,
}

pub open spec fn square(v: int) -> int {
    v * v
}

/// The distance from `a` to `b` is below `threshold` (strictly).
pub open spec fn reaches(a: Position, b: Position, threshold: int) -> bool {
    square(a.x - b.x) + square(a.y - b.y) < square(threshold)
}

/// Whether `b` lies strictly closer to `a` than `threshold`, by Euclidean distance.
pub fn within_reach(a: Position, b: Position, threshold: u64) -> (r: bool)
    ensures
        r == reaches(a, b, threshold as int),
{
    let dx: i128 = a.x as i128 - b.x as i128;
    let dy: i128 = a.y as i128 - b.y as i128;
    let adx: u128 = if dx < 0 { (-dx) as u128 } else { dx as u128 };
    let ady: u128 = if dy < 0 { (-dy) as u128 } else { dy as u128 };
    let t: u128 = threshold as u128;
    assert(square(dx as int) == adx * adx && square(dy as int) == ady * ady) by (nonlinear_arith)
        requires
            adx == dx || adx == -dx,
            ady == dy || ady == -dy,
    ;
    if adx >= t {
        assert(adx * adx >= t * t && ady * ady >= 0) by (nonlinear_arith)
            requires
                adx >= t >= 0,
        ;
        return false;
    }
    if ady >= t {
        assert(ady * ady >= t * t && adx * adx >= 0) by (nonlinear_arith)
            requires
                ady >= t >= 0,
        ;
        return false;
    }
    assert(adx * adx < t * t && ady * ady < t * t && t * t <= u64::MAX * u64::MAX) by (nonlinear_arith)
        requires
            0 <= adx < t,
            0 <= ady < t,
            t <= u64::MAX,
    ;
    let t2: u128 = t * t;
    let dx2: u128 = adx * adx;
    let dy2: u128 = ady * ady;
    dy2 < t2 - dx2
}

/// The player's weight `w` after consuming an NPC of weight `n`: it gains
/// `n / w` units, rounded up to the next step of the fixed-point scale, and
/// stops at `MAX_WEIGHT`.
pub open spec fn growth(w: int, n: int) -> int {
    let g = w + (n * UNIT + w - 1) / w;
    if g > MAX_WEIGHT {
        MAX_WEIGHT as int
    } else {
        g
    }
}

/// Growth never shrinks a weight, never passes the cap, and a positive
/// weight consumed below the cap makes it strictly larger.
proof fn lemma_growth_bounds(w: int, n: int)
    requires
        0 < w <= MAX_WEIGHT,
        0 <= n,
    ensures
        w <= growth(w, n) <= MAX_WEIGHT,
        n > 0 && w < MAX_WEIGHT ==> w < growth(w, n),
{
    assert(n * UNIT >= 0) by (nonlinear_arith)
        requires
            n >= 0,
    ;
    lemma_div_pos_is_pos(n * UNIT + w - 1, w);
    if n > 0 {
        assert(n * UNIT >= 1) by (nonlinear_arith)
            requires
                n >= 1,
        ;
        lemma_div_non_zero(n * UNIT + w - 1, w);
    }
}

/// The player's new weight after consuming an NPC of weight `npc_weight`.
pub fn grown_weight(player_weight: u64, npc_weight: u64) -> (r: u64)
    requires
        0 < player_weight <= MAX_WEIGHT,
    ensures
        r == growth(player_weight as int, npc_weight as int),
        player_weight <= r <= MAX_WEIGHT,
{
    proof {
        lemma_growth_bounds(player_weight as int, npc_weight as int);
    }
    let w: u128 = player_weight as u128;
    let numerator: u128 = npc_weight as u128 * (UNIT as u128) + w - 1;
    let gain: u128 = numerator / w;
    let total: u128 = w + gain;
    if total > MAX_WEIGHT as u128 {
        MAX_WEIGHT
    } else {
        total as u64
    }
}

/// The player's weight after consuming, in order, NPCs of the given weights.
pub open spec fn grown_all(w: int, weights: Seq<u64>) -> int
    decreases weights.len(),
{
    if weights.len() == 0 {
        w
    } else {
        growth(grown_all(w, weights.drop_last()), weights.last() as int)
    }
}

/// Capture radius of a player of weight `w`.
pub open spec fn reach_of(w: int) -> int {
    REACH_PER_WEIGHT * w
}

/// Weights of the NPCs that one collision pass consumes, in order, for a
/// player of weight `w` at `p`: each NPC is tested against the reach of the
/// weight that the player has when its turn comes.
pub open spec fn consumed(w: int, p: Position, npcs: Seq<Creature>) -> Seq<u64>
    decreases npcs.len(),
{
    if npcs.len() == 0 {
        seq![]
    } else {
        let before = consumed(w, p, npcs.drop_last());
        if reaches(p, npcs.last().position, reach_of(grown_all(w, before))) {
            before.push(npcs.last().weight)
        } else {
            before
        }
    }
}

/// The player's weight after one collision pass over `npcs`.
pub open spec fn weight_after(w: int, p: Position, npcs: Seq<Creature>) -> int {
    grown_all(w, consumed(w, p, npcs))
}

/// The NPC at index `i` is consumed by the pass over `npcs`.
pub open spec fn is_caught(w: int, p: Position, npcs: Seq<Creature>, i: int) -> bool {
    reaches(p, npcs[i].position, reach_of(weight_after(w, p, npcs.take(i))))
}

/// Consuming never shrinks the player: after any sequence of consumptions
/// its weight is at least what it was and at most the cap, and strictly
/// greater once an NPC of positive weight was consumed, unless it started at
/// the cap.
pub proof fn lemma_growth_monotone(w: int, weights: Seq<u64>)
    requires
        0 < w <= MAX_WEIGHT,
    ensures
        w <= grown_all(w, weights) <= MAX_WEIGHT,
        w < MAX_WEIGHT && (exists|i: int| 0 <= i < weights.len() && weights[i] > 0) ==> w
            < grown_all(w, weights),
    decreases weights.len(),
{
    if weights.len() > 0 {
        let rest = weights.drop_last();
        lemma_growth_monotone(w, rest);
        let prev = grown_all(w, rest);
        lemma_growth_bounds(prev, weights.last() as int);
        if w < MAX_WEIGHT && (exists|i: int| 0 <= i < weights.len() && weights[i] > 0) {
            let i = choose|i: int| 0 <= i < weights.len() && weights[i] > 0;
            if i < weights.len() - 1 {
                assert(rest[i] > 0);
            } else if prev < MAX_WEIGHT {
                assert(prev < growth(prev, weights.last() as int));
            }
        }
    }
}

/// A uniformly drawn point of `viewport`, where a consumed NPC reappears.
pub fn get_offscreen_render_location(viewport: Viewport, rng: &mut StdRng) -> (r: Position)
    requires
        viewport.wf(),
    ensures
        viewport.contains(r),
{
    let x = draw_between(rng, viewport.min.x, viewport.max.x);
    let y = draw_between(rng, viewport.min.y, viewport.max.y);
    Position { x, y }
}

} // verus!

verus! {

/// One collision pass: every NPC strictly within the player's reach
/// (`REACH_PER_WEIGHT * weight`, of the weight the player has when the NPC's
/// turn comes) is consumed in index order. The player grows by [`growth`]
/// each time, and the NPC is relocated to a point of `viewport`, keeping its
/// movement and weight. No NPC is removed, so their number stays the same.
pub fn handle_collisions(
    player: &mut Creature,
    npcs: &mut Vec<Creature>,
    viewport: Viewport,
    rng: &mut StdRng,
)
    requires
        0 < old(player).weight <= MAX_WEIGHT,
        viewport.wf(),
    ensures
        final(player).weight == weight_after(
            old(player).weight as int,
            old(player).position,
            old(npcs)@,
        ),
        0 < final(player).weight <= MAX_WEIGHT,
        final(player).position == old(player).position,
        final(player).movement == old(player).movement,
        final(npcs)@.len() == old(npcs)@.len(),
        forall|i: int|
            #![trigger final(npcs)@[i]]
            0 <= i < old(npcs)@.len() ==> if is_caught(
                old(player).weight as int,
                old(player).position,
                old(npcs)@,
                i,
            ) {
                &&& viewport.contains(final(npcs)@[i].position)
                &&& final(npcs)@[i].movement == old(npcs)@[i].movement
                &&& final(npcs)@[i].weight == old(npcs)@[i].weight
            } else {
                final(npcs)@[i] == old(npcs)@[i]
            },
{
    let ghost w0 = player.weight as int;
    let ghost p = player.position;
    let ghost start = npcs@;
    let mut i: usize = 0;
    while i < npcs.len()
        invariant
            npcs@.len() == start.len(),
            0 <= i <= start.len(),
            viewport.wf(),
            player.position == p,
            player.movement == old(player).movement,
            w0 == old(player).weight,
            0 < w0 <= MAX_WEIGHT,
            p == old(player).position,
            start == old(npcs)@,
            player.weight == weight_after(w0, p, start.take(i as int)),
            0 < player.weight <= MAX_WEIGHT,
            forall|j: int|
                #![trigger npcs@[j]]
                0 <= j < i ==> if is_caught(w0, p, start, j) {
                    &&& viewport.contains(npcs@[j].position)
                    &&& npcs@[j].movement == start[j].movement
                    &&& npcs@[j].weight == start[j].weight
                } else {
                    npcs@[j] == start[j]
                },
            forall|j: int| i <= j < start.len() ==> #[trigger] npcs@[j] == start[j],
        decreases start.len() - i,
    {
        let npc = npcs[i];
        let ghost before = consumed(w0, p, start.take(i as int));
        proof {
            assert(start.take(i + 1).drop_last() =~= start.take(i as int));
            assert(start.take(i + 1).last() == start[i as int]);
            assert(start.take(i as int) =~= start.take(i as int).take(i as int));
        }
        let reach = REACH_PER_WEIGHT * player.weight;
        if within_reach(player.position, npc.position, reach) {
            player.weight = grown_weight(player.weight, npc.weight);
            let mut moved = npc;
            moved.position = get_offscreen_render_location(viewport, rng);
            npcs.set(i, moved);
            proof {
                assert(before.push(npc.weight).drop_last() =~= before);
            }
        }
        proof {
            lemma_growth_monotone(w0, consumed(w0, p, start.take(i + 1)));
        }
        i = i + 1;
    }
    proof {
        assert(start.take(start.len() as int) =~= start);
    }
}

} // verus!
