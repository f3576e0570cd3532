use vstd::prelude::*;

use crate::components::{ECharacterAttackState, ECharacterMovementState, ESpriteDirection};

verus! {

/// The directional keys held during one tick.
#[derive(Debug, Clone, Copy, PartialEq, Eq, Structural)]
pub struct HeldKeys {
    pub up: bool,
    pub down: bool,
    pub left: bool,
    pub right: bool,
}

/// A direction of travel, one step of -1, 0 or 1 on each axis (y grows upwards).
#[derive(Debug, Clone, Copy, PartialEq, Eq, Structural)]
pub struct MoveVector {
    pub x: i8,
    pub y: i8,
}

impl MoveVector {
    pub open spec fn wf(self) -> bool {
        &&& -1 <= self.x <= 1
        &&& -1 <= self.y <= 1
    }

    pub open spec fn is_zero(self) -> bool {
        self.x == 0 && self.y == 0
    }

    /// Movement along exactly one axis.
    pub open spec fn is_single_axis(self) -> bool {
        (self.x == 0) != (self.y == 0)
    }

    pub fn zero() -> (v: MoveVector)
        ensures
            v.wf(),
            v.is_zero(),
    {
        MoveVector { x: 0, y: 0 }
    }
}

/// The horizontal step the keys ask for: right wins over left.
pub open spec fn key_axis_x(keys: HeldKeys) -> int {
    if keys.right {
        1
    } else if keys.left {
        -1
    } else {
        0
    }
}

/// The vertical step the keys ask for: down wins over up.
pub open spec fn key_axis_y(keys: HeldKeys) -> int {
    if keys.down {
        -1
    } else if keys.up {
        1
    } else {
        0
    }
}

/// The compass step of each attack direction; none for an idle attack state.
pub open spec fn attack_vector(a: ECharacterAttackState) -> (int, int) {
    match a {
        ECharacterAttackState::IDLE => (0, 0),
        ECharacterAttackState::ATTACK_UP => (0, 1),
        ECharacterAttackState::ATTACK_UPRIGHT => (1, 1),
        ECharacterAttackState::ATTACK_UPLEFT => (-1, 1),
        ECharacterAttackState::ATTACK_RIGHT => (1, 0),
        ECharacterAttackState::ATTACK_DOWN => (0, -1),
        ECharacterAttackState::ATTACK_DOWNRIGHT => (1, -1),
        ECharacterAttackState::ATTACK_DOWNLEFT => (-1, -1),
        ECharacterAttackState::ATTACK_LEFT => (-1, 0),
    }
}

/// The attack made while standing still, straight ahead.
pub open spec fn facing_attack(f: ESpriteDirection) -> ECharacterAttackState {
    match f {
        ESpriteDirection::UP => ECharacterAttackState::ATTACK_UP,
        ESpriteDirection::RIGHT => ECharacterAttackState::ATTACK_RIGHT,
        ESpriteDirection::DOWN => ECharacterAttackState::ATTACK_DOWN,
        ESpriteDirection::LEFT => ECharacterAttackState::ATTACK_LEFT,
    }
}

/// The attack direction for a move vector: the facing when standing still, else the
/// compass direction whose step is the vector.
pub open spec fn resolved_attack(v: MoveVector, f: ESpriteDirection) -> ECharacterAttackState {
    if v.is_zero() {
        facing_attack(f)
    } else if v.x == 0 {
        if v.y > 0 { ECharacterAttackState::ATTACK_UP } else { ECharacterAttackState::ATTACK_DOWN }
    } else if v.y == 0 {
        if v.x > 0 { ECharacterAttackState::ATTACK_RIGHT } else { ECharacterAttackState::ATTACK_LEFT }
    } else if v.x > 0 {
        if v.y > 0 {
            ECharacterAttackState::ATTACK_UPRIGHT
        } else {
            ECharacterAttackState::ATTACK_DOWNRIGHT
        }
    } else {
        if v.y > 0 {
            ECharacterAttackState::ATTACK_UPLEFT
        } else {
            ECharacterAttackState::ATTACK_DOWNLEFT
        }
    }
}

/// The movement state for a move vector; on a diagonal the horizontal walk is shown.
pub open spec fn movement_for(v: MoveVector) -> ECharacterMovementState {
    if v.x > 0 {
        ECharacterMovementState::WALK_RIGHT
    } else if v.x < 0 {
        ECharacterMovementState::WALK_LEFT
    } else if v.y > 0 {
        ECharacterMovementState::WALK_UP
    } else if v.y < 0 {
        ECharacterMovementState::WALK_DOWN
    } else {
        ECharacterMovementState::IDLE
    }
}

/// The way the sprite faces during an attack: diagonals show the horizontal side.
pub open spec fn attack_facing(a: ECharacterAttackState) -> ESpriteDirection
    recommends
        a != ECharacterAttackState::IDLE,
{
    match a {
        ECharacterAttackState::ATTACK_UP => ESpriteDirection::UP,
        ECharacterAttackState::ATTACK_UPRIGHT => ESpriteDirection::RIGHT,
        ECharacterAttackState::ATTACK_UPLEFT => ESpriteDirection::LEFT,
        ECharacterAttackState::ATTACK_RIGHT => ESpriteDirection::RIGHT,
        ECharacterAttackState::ATTACK_DOWN => ESpriteDirection::DOWN,
        ECharacterAttackState::ATTACK_DOWNRIGHT => ESpriteDirection::RIGHT,
        ECharacterAttackState::ATTACK_DOWNLEFT => ESpriteDirection::LEFT,
        ECharacterAttackState::ATTACK_LEFT => ESpriteDirection::LEFT,
        ECharacterAttackState::IDLE => ESpriteDirection::DOWN,
    }
}

/// The way the sprite faces while walking straight along one axis.
pub open spec fn axis_facing(v: MoveVector) -> ESpriteDirection {
    if v.x > 0 {
        ESpriteDirection::RIGHT
    } else if v.x < 0 {
        ESpriteDirection::LEFT
    } else if v.y > 0 {
        ESpriteDirection::UP
    } else {
        ESpriteDirection::DOWN
    }
}

/// Turns the held keys into a move vector.
pub fn move_vector(keys: &HeldKeys) -> (v: MoveVector)
    ensures
        v.wf(),
        v.x == key_axis_x(*keys),
        v.y == key_axis_y(*keys),
{
    let mut v = MoveVector { x: 0, y: 0 };
    if keys.up {
        v.y = 1;
    }
    if keys.down {
        v.y = -1;
    }
    if keys.left {
        v.x = -1;
    }
    if keys.right {
        v.x = 1;
    }
    v
}

/// The attack direction for a move vector and the current facing, by a table over all
/// nine vectors.
pub fn resolve_attack_direction(v: MoveVector, facing: ESpriteDirection) -> (a: ECharacterAttackState)
    requires
        v.wf(),
    ensures
        a == resolved_attack(v, facing),
        a != ECharacterAttackState::IDLE,
        !v.is_zero() ==> attack_vector(a) == (v.x as int, v.y as int),
{
    match (v.x, v.y) {
        (0, 0) => match facing {
            ESpriteDirection::UP => ECharacterAttackState::ATTACK_UP,
            ESpriteDirection::RIGHT => ECharacterAttackState::ATTACK_RIGHT,
            ESpriteDirection::DOWN => ECharacterAttackState::ATTACK_DOWN,
            ESpriteDirection::LEFT => ECharacterAttackState::ATTACK_LEFT,
        },
        (0, 1) => ECharacterAttackState::ATTACK_UP,
        (1, 1) => ECharacterAttackState::ATTACK_UPRIGHT,
        (-1, 1) => ECharacterAttackState::ATTACK_UPLEFT,
        (1, 0) => ECharacterAttackState::ATTACK_RIGHT,
        (0, -1) => ECharacterAttackState::ATTACK_DOWN,
        (1, -1) => ECharacterAttackState::ATTACK_DOWNRIGHT,
        (-1, -1) => ECharacterAttackState::ATTACK_DOWNLEFT,
        (-1, 0) => ECharacterAttackState::ATTACK_LEFT,
        _ => {
            proof {
                assert(false);
            }
            ECharacterAttackState::ATTACK_DOWN
        },
    }
}

/// The movement state that a move vector puts a character in.
pub fn movement_state_for(v: MoveVector) -> (m: ECharacterMovementState)
    ensures
        m == movement_for(v),
        (m == ECharacterMovementState::IDLE) == v.is_zero(),
{
    if v.x > 0 {
        ECharacterMovementState::WALK_RIGHT
    } else if v.x < 0 {
        ECharacterMovementState::WALK_LEFT
    } else if v.y > 0 {
        ECharacterMovementState::WALK_UP
    } else if v.y < 0 {
        ECharacterMovementState::WALK_DOWN
    } else {
        ECharacterMovementState::IDLE
    }
}

/// The resolver is total: each of the nine move vectors, with each facing, gives an
/// attack direction; standing still attacks straight ahead, and the eight moving
/// vectors give eight different directions, each pointing along its vector.
pub proof fn lemma_resolver_total(v: MoveVector, w: MoveVector, f: ESpriteDirection, g: ESpriteDirection)
    requires
        v.wf(),
        w.wf(),
    ensures
        resolved_attack(v, f) != ECharacterAttackState::IDLE,
        v.is_zero() ==> resolved_attack(v, f) == facing_attack(f),
        !v.is_zero() ==> attack_vector(resolved_attack(v, f)) == (v.x as int, v.y as int),
        !v.is_zero() && !w.is_zero() && v != w ==> resolved_attack(v, f) != resolved_attack(w, g),
{
}

} // verus!
