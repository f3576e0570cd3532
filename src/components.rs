use vstd::prelude::*;

use crate::projectiles::ProjectileMask;
use crate::timer::Timer;

verus! {

/// A velocity in millionths of a world unit per second.
#[derive(Debug, Clone, Copy, PartialEq, Eq, Structural)]
pub struct Velocity {
    pub x: i64,
    pub y: i64,
}

/// Marks the character that the keyboard drives.
#[derive(Debug, Clone, Copy, PartialEq, Eq, Structural)]
pub struct Player;

/// A point of the arena in millionths of a world unit.
#[derive(Debug, Clone, Copy, PartialEq, Eq, Structural)]
pub struct Position {
    pub x: i64,
    pub y: i64,
}

/// Which way a character's sprite currently faces.
#[derive(Debug, Clone, Copy, PartialEq, Eq, Structural)]
pub struct SpriteDirection(pub ESpriteDirection);

/// The four ways a character's sprite can face.
#[derive(Debug, Clone, Copy, PartialEq, Eq, Structural)]
pub enum ESpriteDirection {
    UP,
    RIGHT,
    DOWN,
    LEFT,
}

impl Default for ESpriteDirection {
    fn default() -> (r: ESpriteDirection)
        ensures
            r == ESpriteDirection::DOWN,
    {
        ESpriteDirection::DOWN
    }
}

/// A character's movement state and attack state; the attack state, when not idle,
/// takes priority for what is shown.
#[derive(Debug, Clone, Copy)]
pub struct CharacterState(pub (ECharacterMovementState, ECharacterAttackState));

/// What a character's feet are doing.
#[derive(Debug, Clone, Copy, PartialEq, Eq, Structural)]
#[allow(non_camel_case_types)]
pub enum ECharacterMovementState {
    IDLE,
    WALK_UP,
    WALK_RIGHT,
    WALK_DOWN,
    WALK_LEFT,
}

impl Default for ECharacterMovementState {
    fn default() -> (r: ECharacterMovementState)
        ensures
            r == ECharacterMovementState::IDLE,
    {
        ECharacterMovementState::IDLE
    }
}

/// The attack under way, by its compass direction, or none.
#[derive(Debug, Clone, Copy, PartialEq, Eq, Structural)]
#[allow(non_camel_case_types)]
pub enum ECharacterAttackState {
    IDLE,
    ATTACK_UP,
    ATTACK_UPRIGHT,
    ATTACK_UPLEFT,
    ATTACK_RIGHT,
    ATTACK_DOWN,
    ATTACK_DOWNRIGHT,
    ATTACK_DOWNLEFT,
    ATTACK_LEFT,
}

impl Default for ECharacterAttackState {
    fn default() -> (r: ECharacterAttackState)
        ensures
            r == ECharacterAttackState::IDLE,
    {
        ECharacterAttackState::IDLE
    }
}

/// Paces the flip between the two frames of the animation on show.
pub struct AnimationTimer(pub Timer);

/// Measures how long an attack lasts; no new attack starts before it runs out.
pub struct AttackTimer(pub Timer);

/// Marks an entity that takes part in collisions.
#[derive(Debug, Clone, Copy, PartialEq, Eq, Structural)]
pub struct Collider;

/// Marks a projectile, with the side that shot it.
#[derive(Debug, Clone, Copy, PartialEq, Eq, Structural)]
pub struct Projectile(pub ProjectileMask);

} // verus!
