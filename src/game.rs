use vstd::prelude::*;

use crate::components::{Position, Velocity};
use crate::player::{character_ticked, init_player, Character, PlayerInput};
use crate::projectiles::{arrow_advanced, arrows_inside, update_projectiles, ArcherArrow};

verus! {

// World coordinates are fixed-point: one world unit is a million sub-units.
pub const SUBUNITS_PER_UNIT: i64 = 1_000_000;

pub const NANOS_PER_SECOND: u64 = 1_000_000_000;

/// The length of one simulation tick: a sixtieth of a second, in nanoseconds.
pub const TIME_STEP: u64 = 16_666_667;

pub const MAP_LEFT_BOUND: i64 = -210_000_000;
pub const MAP_UP_BOUND: i64 = 120_000_000;
pub const MAP_RIGHT_BOUND: i64 = 210_000_000;
pub const MAP_DOWN_BOUND: i64 = -160_000_000;

/// How far `v` sub-units per second carry in `dt` nanoseconds, rounded towards zero.
pub open spec fn displacement(v: int, dt: int) -> int {
    if v >= 0 {
        (v * dt) / (NANOS_PER_SECOND as int)
    } else {
        -(((-v) * dt) / (NANOS_PER_SECOND as int))
    }
}

/// `z` held within the range of `i64`.
pub open spec fn saturate(z: int) -> int {
    if z > i64::MAX {
        i64::MAX as int
    } else if z < i64::MIN {
        i64::MIN as int
    } else {
        z
    }
}

/// `z` held within `lo..=hi`.
pub open spec fn clamp(z: int, lo: int, hi: int) -> int {
    if z < lo {
        lo
    } else if z > hi {
        hi
    } else {
        z
    }
}

/// A coordinate after moving at `v` for `dt` nanoseconds.
pub open spec fn advanced(p: int, v: int, dt: int) -> int {
    saturate(p + displacement(v, dt))
}

/// A position after moving at `v` for `dt` nanoseconds.
pub open spec fn moved(p: Position, v: Velocity, dt: int) -> Position {
    Position { x: advanced(p.x as int, v.x as int, dt) as i64, y: advanced(p.y as int, v.y as int, dt) as i64 }
}

/// Whether a position is on or beyond any edge of the arena.
pub open spec fn outside_arena(p: Position) -> bool {
    ||| p.x >= MAP_RIGHT_BOUND
    ||| p.x <= MAP_LEFT_BOUND
    ||| p.y >= MAP_UP_BOUND
    ||| p.y <= MAP_DOWN_BOUND
}

/// Moves one coordinate at velocity `v` for `dt` nanoseconds, saturating at the range
/// of `i64`.
pub fn advance_coordinate(p: i64, v: i64, dt: u64) -> (r: i64)
    ensures
        r == advanced(p as int, v as int, dt as int),
{
    let mag: u128 = if v >= 0 {
        v as u128
    } else {
        (0i128 - v as i128) as u128
    };
    assert(mag as int * dt as int <= 0x8000_0000_0000_0000 * 0xffff_ffff_ffff_ffff) by (nonlinear_arith)
        requires
            mag <= 0x8000_0000_0000_0000,
            dt <= 0xffff_ffff_ffff_ffff,
    ;
    let q: u128 = mag * (dt as u128) / (NANOS_PER_SECOND as u128);
    assert(q as int <= mag as int * dt as int) by (nonlinear_arith)
        requires
            q as int == (mag as int * dt as int) / 1_000_000_000,
            mag as int * dt as int >= 0,
    ;
    let z: i128 = if v >= 0 {
        p as i128 + q as i128
    } else {
        p as i128 - q as i128
    };
    if z > i64::MAX as i128 {
        i64::MAX
    } else if z < i64::MIN as i128 {
        i64::MIN
    } else {
        z as i64
    }
}

/// Holds a coordinate within `lo..=hi`.
pub fn clamp_coordinate(z: i64, lo: i64, hi: i64) -> (r: i64)
    requires
        lo <= hi,
    ensures
        r == clamp(z as int, lo as int, hi as int),
{
    if z < lo {
        lo
    } else if z > hi {
        hi
    } else {
        z
    }
}

/// Whether a position is on or beyond any edge of the arena.
pub fn is_outside_arena(p: &Position) -> (r: bool)
    ensures
        r == outside_arena(*p),
{
    p.x >= MAP_RIGHT_BOUND || p.x <= MAP_LEFT_BOUND || p.y >= MAP_UP_BOUND || p.y <= MAP_DOWN_BOUND
}

/// The arena during play: the archer and the arrows in flight.
pub struct GameWorld {
    pub player: Character,
    pub projectiles: Vec<ArcherArrow>,
}

impl GameWorld {
    pub open spec fn wf(&self) -> bool {
        self.player.wf()
    }

    /// The arena as a game starts: a fresh archer and no arrows.
    pub fn new() -> (w: GameWorld)
        ensures
            w.wf(),
            w.projectiles@.len() == 0,
            w.player.position == (Position { x: 0, y: 0 }),
    {
        GameWorld { player: init_player(), projectiles: Vec::new() }
    }

    /// One fixed tick of play. The arrows already in flight move and those that reached
    /// an edge are removed; the archer then takes the tick, and an arrow it shoots joins
    /// the others. Returns whether an arrow was shot, so that its sound can be played.
    pub fn step(&mut self, input: &PlayerInput, delta: u64) -> (shot: bool)
        requires
            old(self).wf(),
        ensures
            final(self).wf(),
            exists|arrow: Option<ArcherArrow>|
                {
                    &&& character_ticked(old(self).player, final(self).player, *input, delta as nat, arrow)
                    &&& shot == arrow.is_some()
                    &&& final(self).projectiles@ == {
                        let flown = arrows_inside(
                            old(self).projectiles@.map_values(|a: ArcherArrow| arrow_advanced(a, delta as int)),
                        );
                        match arrow {
                            Some(a) => flown.push(a),
                            None => flown,
                        }
                    }
                },
    {
        update_projectiles(&mut self.projectiles, delta);
        let arrow = self.player.tick(input, delta);
        match arrow {
            Some(a) => {
                self.projectiles.push(a);
                true
            },
            None => false,
        }
    }
}

} // verus!
