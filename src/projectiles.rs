use vstd::prelude::*;

use crate::components::{Collider, ECharacterAttackState, Position, Projectile, Velocity};
use crate::game::{advance_coordinate, is_outside_arena, moved, outside_arena};

verus! {

/// The side a projectile belongs to; a projectile never harms its own side.
#[derive(Debug, Clone, Copy, PartialEq, Eq, Structural)]
pub enum ProjectileMask {
    Player,
    Enemy,
}

/// Sub-units in a hundredth of a world unit: arrow headings are given in hundredths.
pub const SUBUNITS_PER_HUNDREDTH: i64 = 10_000;

/// An arrow in flight: where it is, how fast it goes, and how it is drawn.
///
/// `texture_index` picks from the arrow textures: 0 flies sideways, 1 diagonally,
/// 2 up or down; `flip_x` mirrors the picture.
#[derive(Debug, Clone, Copy, PartialEq, Eq, Structural)]
pub struct ArcherArrow {
    pub position: Position,
    pub velocity: Velocity,
    pub texture_index: usize,
    pub flip_x: bool,
    pub collider: Collider,
    pub projectile: Projectile,
}

/// The heading of an arrow shot in direction `a`, in hundredths of a world unit per
/// unit of speed. The diagonals are tuned by eye and are not of unit length.
pub open spec fn arrow_heading(a: ECharacterAttackState) -> (int, int) {
    match a {
        ECharacterAttackState::ATTACK_UP => (0, 100),
        ECharacterAttackState::ATTACK_UPRIGHT => (66, 66),
        ECharacterAttackState::ATTACK_UPLEFT => (-66, 66),
        ECharacterAttackState::ATTACK_RIGHT => (100, 0),
        ECharacterAttackState::ATTACK_DOWN => (0, -100),
        ECharacterAttackState::ATTACK_DOWNRIGHT => (60, -60),
        ECharacterAttackState::ATTACK_DOWNLEFT => (-60, -60),
        ECharacterAttackState::ATTACK_LEFT => (-100, 0),
        ECharacterAttackState::IDLE => (0, 0),
    }
}

/// Which arrow texture a direction shows.
pub open spec fn arrow_texture(a: ECharacterAttackState) -> usize {
    match a {
        ECharacterAttackState::ATTACK_UP | ECharacterAttackState::ATTACK_DOWN => 2,
        ECharacterAttackState::ATTACK_UPRIGHT | ECharacterAttackState::ATTACK_UPLEFT
        | ECharacterAttackState::ATTACK_DOWNRIGHT | ECharacterAttackState::ATTACK_DOWNLEFT => 1,
        _ => 0,
    }
}

/// Whether the texture is mirrored for a direction.
pub open spec fn arrow_flip(a: ECharacterAttackState) -> bool {
    a == ECharacterAttackState::ATTACK_UPRIGHT || a == ECharacterAttackState::ATTACK_DOWNLEFT
}

/// The velocity of an arrow shot in direction `a` at `speed` world units per second.
pub open spec fn arrow_velocity(a: ECharacterAttackState, speed: int) -> Velocity {
    Velocity {
        x: (arrow_heading(a).0 * speed * SUBUNITS_PER_HUNDREDTH) as i64,
        y: (arrow_heading(a).1 * speed * SUBUNITS_PER_HUNDREDTH) as i64,
    }
}

/// The arrow that an attack in direction `a` from `location` lets fly.
pub open spec fn spawned_arrow(speed: int, location: Position, a: ECharacterAttackState) -> ArcherArrow {
    ArcherArrow {
        position: location,
        velocity: arrow_velocity(a, speed),
        texture_index: arrow_texture(a),
        flip_x: arrow_flip(a),
        collider: Collider,
        projectile: Projectile(ProjectileMask::Player),
    }
}

/// An arrow after flying for `dt` nanoseconds.
pub open spec fn arrow_advanced(a: ArcherArrow, dt: int) -> ArcherArrow {
    ArcherArrow { position: moved(a.position, a.velocity, dt), ..a }
}

/// The arrows of `s` that are strictly inside the arena, in their order.
pub open spec fn arrows_inside(s: Seq<ArcherArrow>) -> Seq<ArcherArrow>
    decreases s.len(),
{
    if s.len() == 0 {
        Seq::empty()
    } else {
        let rest = arrows_inside(s.drop_last());
        if outside_arena(s.last().position) {
            rest
        } else {
            rest.push(s.last())
        }
    }
}

/// What is kept is exactly what is strictly inside the arena.
proof fn lemma_arrows_inside(s: Seq<ArcherArrow>)
    ensures
        forall|a: ArcherArrow| #[trigger] arrows_inside(s).contains(a) ==> !outside_arena(a.position) && s.contains(a),
        forall|i: int| 0 <= i < s.len() && !outside_arena(s[i].position) ==> #[trigger] arrows_inside(s).contains(s[i]),
        arrows_inside(s).len() <= s.len(),
    decreases s.len(),
{
    if s.len() > 0 {
        let r = s.drop_last();
        let rest = arrows_inside(r);
        let q = arrows_inside(s);
        lemma_arrows_inside(r);
        assert forall|a: ArcherArrow| q.contains(a) implies !outside_arena(a.position) && s.contains(a) by {
            let k = choose|k: int| 0 <= k < q.len() && q[k] == a;
            if k < rest.len() {
                assert(rest[k] == a);
                assert(rest.contains(a));
                let j = choose|j: int| 0 <= j < r.len() && r[j] == a;
                assert(s[j] == a);
            } else {
                assert(a == s.last());
                assert(s[s.len() - 1] == a);
            }
        }
        assert forall|i: int| 0 <= i < s.len() && !outside_arena(s[i].position) implies q.contains(s[i]) by {
            if i < s.len() - 1 {
                assert(r[i] == s[i]);
                assert(rest.contains(r[i]));
                let k = choose|k: int| 0 <= k < rest.len() && rest[k] == s[i];
                assert(q[k] == s[i]);
                assert(q.contains(s[i]));
            } else {
                assert(q[q.len() - 1] == s[i]);
                assert(q.contains(s[i]));
            }
        }
    }
}

impl ArcherArrow {
    /// Shoots an arrow from `location` in direction `arrow_direction` at `speed` world
    /// units per second. An idle attack state has no direction and shoots nothing.
    pub fn new(speed: u32, location: &Position, arrow_direction: &ECharacterAttackState) -> (r: ArcherArrow)
        requires
            *arrow_direction != ECharacterAttackState::IDLE,
        ensures
            r == spawned_arrow(speed as int, *location, *arrow_direction),
    {
        let (hx, hy, texture_index, flip_x): (i64, i64, usize, bool) = match arrow_direction {
            ECharacterAttackState::ATTACK_UP => (0, 100, 2, false),
            ECharacterAttackState::ATTACK_UPRIGHT => (66, 66, 1, true),
            ECharacterAttackState::ATTACK_UPLEFT => (-66, 66, 1, false),
            ECharacterAttackState::ATTACK_RIGHT => (100, 0, 0, false),
            ECharacterAttackState::ATTACK_DOWN => (0, -100, 2, false),
            ECharacterAttackState::ATTACK_DOWNRIGHT => (60, -60, 1, false),
            ECharacterAttackState::ATTACK_DOWNLEFT => (-60, -60, 1, true),
            ECharacterAttackState::ATTACK_LEFT => (-100, 0, 0, false),
            ECharacterAttackState::IDLE => {
                proof {
                    assert(false);
                }
                (0, 0, 0, false)
            },
        };
        let scale: i64 = speed as i64 * SUBUNITS_PER_HUNDREDTH;
        assert(hx * scale == hx * speed * SUBUNITS_PER_HUNDREDTH && hy * scale == hy * speed
            * SUBUNITS_PER_HUNDREDTH) by (nonlinear_arith)
            requires
                scale == speed * SUBUNITS_PER_HUNDREDTH,
        ;
        assert(-100 * scale <= hx * scale <= 100 * scale) by (nonlinear_arith)
            requires
                -100 <= hx <= 100,
                0 <= scale,
        ;
        assert(-100 * scale <= hy * scale <= 100 * scale) by (nonlinear_arith)
            requires
                -100 <= hy <= 100,
                0 <= scale,
        ;
        ArcherArrow {
            position: *location,
            velocity: Velocity { x: hx * scale, y: hy * scale },
            texture_index,
            flip_x,
            collider: Collider,
            projectile: Projectile(ProjectileMask::Player),
        }
    }

    /// Lets the arrow fly for `delta` nanoseconds at its constant velocity.
    pub fn advance(&mut self, delta: u64)
        ensures
            *final(self) == arrow_advanced(*old(self), delta as int),
    {
        self.position = Position {
            x: advance_coordinate(self.position.x, self.velocity.x, delta),
            y: advance_coordinate(self.position.y, self.velocity.y, delta),
        };
    }

    /// Whether the arrow has reached an edge of the arena and is to be removed.
    pub fn should_despawn(&self) -> (r: bool)
        ensures
            r == outside_arena(self.position),
    {
        is_outside_arena(&self.position)
    }
}

/// Lets every arrow fly for `delta` nanoseconds.
pub fn move_projectiles(projectiles: &mut Vec<ArcherArrow>, delta: u64)
    ensures
        final(projectiles)@ == old(projectiles)@.map_values(|a: ArcherArrow| arrow_advanced(a, delta as int)),
{
    let n = projectiles.len();
    for i in 0..n
        invariant
            n == old(projectiles)@.len(),
            projectiles@.len() == n,
            forall|j: int| 0 <= j < i ==> projectiles@[j] == arrow_advanced(old(projectiles)@[j], delta as int),
            forall|j: int| i <= j < n ==> projectiles@[j] == old(projectiles)@[j],
    {
        let mut a = projectiles[i];
        a.advance(delta);
        projectiles.set(i, a);
    }
    assert(projectiles@ =~= old(projectiles)@.map_values(|a: ArcherArrow| arrow_advanced(a, delta as int)));
}

/// Removes every arrow that is on or beyond an edge of the arena, keeping the order of
/// the others.
pub fn check_projectile_collisions(projectiles: &mut Vec<ArcherArrow>)
    ensures
        final(projectiles)@ == arrows_inside(old(projectiles)@),
        forall|a: ArcherArrow| #[trigger] final(projectiles)@.contains(a) ==> !outside_arena(a.position),
        forall|i: int|
            0 <= i < old(projectiles)@.len() && !outside_arena(old(projectiles)@[i].position)
                ==> #[trigger] final(projectiles)@.contains(old(projectiles)@[i]),
{
    let ghost s = projectiles@;
    let mut kept: Vec<ArcherArrow> = Vec::new();
    let n = projectiles.len();
    for i in 0..n
        invariant
            n == s.len(),
            projectiles@ == s,
            kept@ == arrows_inside(s.subrange(0, i as int)),
    {
        let a = projectiles[i];
        proof {
            assert(s.subrange(0, i + 1).drop_last() =~= s.subrange(0, i as int));
        }
        if !a.should_despawn() {
            kept.push(a);
        }
    }
    proof {
        assert(s.subrange(0, n as int) =~= s);
        lemma_arrows_inside(s);
    }
    *projectiles = kept;
    assert(projectiles@ == arrows_inside(s));
}

/// Removal has no lag: after a tick of flight, an arrow strictly inside the arena is
/// still there and one on or beyond an edge is gone, in that same tick.
pub proof fn lemma_despawn_same_tick(s: Seq<ArcherArrow>, dt: nat, i: int)
    requires
        0 <= i < s.len(),
    ensures
        ({
            let flown = s.map_values(|a: ArcherArrow| arrow_advanced(a, dt as int));
            arrows_inside(flown).contains(flown[i]) <==> !outside_arena(flown[i].position)
        }),
{
    let flown = s.map_values(|a: ArcherArrow| arrow_advanced(a, dt as int));
    lemma_arrows_inside(flown);
}

/// One tick of arrow flight: every arrow moves, then those that reached an edge are
/// removed in the same tick.
pub fn update_projectiles(projectiles: &mut Vec<ArcherArrow>, delta: u64)
    ensures
        final(projectiles)@ == arrows_inside(
            old(projectiles)@.map_values(|a: ArcherArrow| arrow_advanced(a, delta as int)),
        ),
{
    move_projectiles(projectiles, delta);
    check_projectile_collisions(projectiles);
}

} // verus!
