use vstd::prelude::*;

use crate::animation::{animate_sprite, change_sprite, facing_after, frame_duration, frame_set, in_set, is_attacking, next_frame};
use crate::components::{
    AnimationTimer, AttackTimer, CharacterState, ECharacterAttackState, ECharacterMovementState,
    ESpriteDirection, Position, SpriteDirection,
};
use crate::direction::{
    key_axis_x, key_axis_y, move_vector, movement_for, movement_state_for, resolve_attack_direction,
    resolved_attack, HeldKeys, MoveVector,
};
use crate::game::{
    advance_coordinate, advanced, clamp, clamp_coordinate, MAP_DOWN_BOUND, MAP_LEFT_BOUND,
    MAP_RIGHT_BOUND, MAP_UP_BOUND, SUBUNITS_PER_UNIT,
};
use crate::projectiles::{spawned_arrow, ArcherArrow};
use crate::timer::{Timer, TimerView};

verus! {

/// Speed of the archer's arrows, in world units per second.
pub const ARCHER_PROJECTILE_SPEED: u32 = 500;

/// Walking speed, in world units per second.
pub const PLAYERSPEED: i64 = 100;

/// How long an attack frame shows, and how long an attack lasts, in nanoseconds.
pub const ATTACK_ANIM_SPEED: u64 = 100_000_000;

/// How long an idle or walking frame shows, in nanoseconds.
pub const IDLE_ANIM_SPEED: u64 = 250_000_000;

/// Everything the game keeps about one character.
pub struct Character {
    pub position: Position,
    pub character_state: CharacterState,
    pub sprite_direction: SpriteDirection,
    /// The frame of the tileset on show.
    pub sprite_index: usize,
    pub animation_timer: AnimationTimer,
    pub attack_timer: AttackTimer,
}

/// The input sampled for one tick: the directional keys held, and whether attack is held.
#[derive(Debug, Clone, Copy, PartialEq, Eq, Structural)]
pub struct PlayerInput {
    pub keys: HeldKeys,
    pub attack: bool,
}

impl Character {
    pub open spec fn wf(&self) -> bool {
        &&& self.animation_timer.0@.wf()
        &&& self.attack_timer.0@.wf()
    }
}

/// The move vector the held keys give.
pub open spec fn keys_vector(keys: HeldKeys) -> MoveVector {
    MoveVector { x: key_axis_x(keys) as i8, y: key_axis_y(keys) as i8 }
}

/// Where a character walking along `v` for `dt` nanoseconds ends up, kept inside the arena.
pub open spec fn walked(p: Position, v: MoveVector, dt: int) -> Position {
    Position {
        x: clamp(
            advanced(p.x as int, v.x * PLAYERSPEED * SUBUNITS_PER_UNIT, dt),
            MAP_LEFT_BOUND as int,
            MAP_RIGHT_BOUND as int,
        ) as i64,
        y: clamp(
            advanced(p.y as int, v.y * PLAYERSPEED * SUBUNITS_PER_UNIT, dt),
            MAP_DOWN_BOUND as int,
            MAP_UP_BOUND as int,
        ) as i64,
    }
}

/// The attack timer after its tick: it only runs while an attack is under way.
pub open spec fn cooldown_ticked(a: ECharacterAttackState, t: TimerView, dt: nat) -> TimerView {
    if a != ECharacterAttackState::IDLE {
        t.ticked(dt)
    } else {
        t
    }
}

/// The attack state once a finished cooldown has ended the attack.
pub open spec fn attack_after_cooldown(a: ECharacterAttackState, t: TimerView, dt: nat) -> ECharacterAttackState {
    if cooldown_ticked(a, t, dt).just_finished {
        ECharacterAttackState::IDLE
    } else {
        a
    }
}

/// The attack timer at the end of the tick: restarted when the cooldown ran out.
pub open spec fn cooldown_after(a: ECharacterAttackState, t: TimerView, dt: nat) -> TimerView {
    let t1 = cooldown_ticked(a, t, dt);
    if t1.just_finished {
        TimerView::restarted(t1.duration)
    } else {
        t1
    }
}

/// Whether a new attack starts this tick: attack is held and no attack is under way.
pub open spec fn attack_fires(a: ECharacterAttackState, t: TimerView, dt: nat, pressed: bool) -> bool {
    pressed && attack_after_cooldown(a, t, dt) == ECharacterAttackState::IDLE
}

/// The attack state at the end of the tick.
pub open spec fn attack_after(
    a: ECharacterAttackState,
    t: TimerView,
    dt: nat,
    pressed: bool,
    v: MoveVector,
    f: ESpriteDirection,
) -> ECharacterAttackState {
    if attack_fires(a, t, dt, pressed) {
        resolved_attack(v, f)
    } else {
        attack_after_cooldown(a, t, dt)
    }
}

/// How one tick takes character `c` to `d`, shooting `arrow`: see `Character::tick`.
pub open spec fn character_ticked(
    c: Character,
    d: Character,
    input: PlayerInput,
    dt: nat,
    arrow: Option<ArcherArrow>,
) -> bool {
    let v = keys_vector(input.keys);
    let a = c.character_state.0.1;
    let t = c.attack_timer.0@;
    let s = d.character_state;
    let set = frame_set(d.sprite_direction.0, is_attacking(s));
    let ticked = c.animation_timer.0@.ticked(dt);
    &&& d.position == walked(c.position, v, dt as int)
    &&& s.0.0 == movement_for(v)
    &&& s.0.1 == attack_after(a, t, dt, input.attack, v, c.sprite_direction.0)
    &&& d.attack_timer.0@ == cooldown_after(a, t, dt)
    &&& arrow == if attack_fires(a, t, dt, input.attack) {
        Some(spawned_arrow(ARCHER_PROJECTILE_SPEED as int, d.position, s.0.1))
    } else {
        None
    }
    &&& d.sprite_direction.0 == facing_after(c.sprite_direction.0, s, v)
    &&& d.sprite_index == next_frame(c.sprite_index, set, ticked.just_finished)
    &&& d.animation_timer.0@ == if in_set(c.sprite_index, set) {
        ticked
    } else {
        TimerView::restarted(frame_duration(is_attacking(s)))
    }
}

/// A fresh archer in the middle of the arena, idle and facing down.
pub fn init_player() -> (c: Character)
    ensures
        c.wf(),
        c.position == (Position { x: 0, y: 0 }),
        c.character_state.0 == (ECharacterMovementState::IDLE, ECharacterAttackState::IDLE),
        c.sprite_direction.0 == ESpriteDirection::DOWN,
        c.sprite_index == 0,
        c.animation_timer.0@ == TimerView::restarted(IDLE_ANIM_SPEED as nat),
        c.attack_timer.0@ == TimerView::restarted(ATTACK_ANIM_SPEED as nat),
{
    Character {
        position: Position { x: 0, y: 0 },
        character_state: CharacterState((ECharacterMovementState::default(), ECharacterAttackState::default())),
        sprite_direction: SpriteDirection(ESpriteDirection::default()),
        sprite_index: 0,
        animation_timer: AnimationTimer(Timer::from_nanos(IDLE_ANIM_SPEED)),
        attack_timer: AttackTimer(Timer::from_nanos(ATTACK_ANIM_SPEED)),
    }
}

/// Walks a character along `move_vector` for `delta` nanoseconds, keeping it inside the
/// arena, and sets its movement state to match.
pub fn player_move(
    move_vector: MoveVector,
    position: &mut Position,
    character_state: &mut CharacterState,
    delta: u64,
)
    requires
        move_vector.wf(),
    ensures
        *final(position) == walked(*old(position), move_vector, delta as int),
        final(character_state).0.0 == movement_for(move_vector),
        final(character_state).0.1 == old(character_state).0.1,
{
    character_state.0.0 = movement_state_for(move_vector);
    let speed: i64 = PLAYERSPEED * SUBUNITS_PER_UNIT;
    let x = advance_coordinate(position.x, move_vector.x as i64 * speed, delta);
    let y = advance_coordinate(position.y, move_vector.y as i64 * speed, delta);
    *position = Position {
        x: clamp_coordinate(x, MAP_LEFT_BOUND, MAP_RIGHT_BOUND),
        y: clamp_coordinate(y, MAP_DOWN_BOUND, MAP_UP_BOUND),
    };
}

/// Runs a character's attack for one tick.
///
/// The cooldown runs only while an attack is under way; when it runs out the attack
/// ends. With no attack under way and attack held, a new attack starts in the direction
/// of `move_vector` (straight ahead when standing still) and its arrow is returned.
/// Attack presses during an attack are ignored.
pub fn player_attack(
    attack_pressed: bool,
    move_vector: MoveVector,
    sprite_direction: &SpriteDirection,
    position: &Position,
    timer: &mut AttackTimer,
    character_state: &mut CharacterState,
    delta: u64,
) -> (arrow: Option<ArcherArrow>)
    requires
        move_vector.wf(),
        old(timer).0@.wf(),
    ensures
        ({
            let a = old(character_state).0.1;
            let t = old(timer).0@;
            &&& final(character_state).0.1 == attack_after(
                a,
                t,
                delta as nat,
                attack_pressed,
                move_vector,
                sprite_direction.0,
            )
            &&& final(timer).0@ == cooldown_after(a, t, delta as nat)
            &&& arrow == if attack_fires(a, t, delta as nat, attack_pressed) {
                Some(spawned_arrow(ARCHER_PROJECTILE_SPEED as int, *position, final(character_state).0.1))
            } else {
                None
            }
        }),
        final(character_state).0.0 == old(character_state).0.0,
        final(timer).0@.wf(),
{
    if character_state.0.1 != ECharacterAttackState::IDLE {
        timer.0.tick(delta);
    }
    if timer.0.just_finished() {
        // The attack is over.
        character_state.0.1 = ECharacterAttackState::IDLE;
        timer.0.reset();
    }
    if attack_pressed && character_state.0.1 == ECharacterAttackState::IDLE {
        let direction = resolve_attack_direction(move_vector, sprite_direction.0);
        character_state.0.1 = direction;
        Some(ArcherArrow::new(ARCHER_PROJECTILE_SPEED, position, &direction))
    } else {
        None
    }
}

impl Character {
    /// Whether both timers are usable, as `tick` needs.
    pub fn is_wf(&self) -> (r: bool)
        ensures
            r == self.wf(),
    {
        self.animation_timer.0.is_wf() && self.attack_timer.0.is_wf()
    }

    /// One tick of the character: keys to move vector, movement, attack, facing, then
    /// animation, each step seeing what the steps before it did.
    /// Returns the arrow shot this tick, if any.
    pub fn tick(&mut self, input: &PlayerInput, delta: u64) -> (arrow: Option<ArcherArrow>)
        requires
            old(self).wf(),
        ensures
            character_ticked(*old(self), *final(self), *input, delta as nat, arrow),
            final(self).wf(),
    {
        let v = move_vector(&input.keys);
        player_move(v, &mut self.position, &mut self.character_state, delta);
        let arrow = player_attack(
            input.attack,
            v,
            &self.sprite_direction,
            &self.position,
            &mut self.attack_timer,
            &mut self.character_state,
            delta,
        );
        change_sprite(&mut self.sprite_direction, &self.character_state, v);
        animate_sprite(
            &mut self.animation_timer,
            &mut self.sprite_index,
            &self.character_state,
            &self.sprite_direction,
            delta,
        );
        arrow
    }
}

/// An attack is never cut short or doubled: while one is under way and its cooldown has
/// not run out, pressing attack starts nothing and the attack state stays as it was.
/// And a new attack starts only when no attack is under way once the cooldown is counted.
pub proof fn lemma_cooldown_exclusive(
    a: ECharacterAttackState,
    t: TimerView,
    dt: nat,
    pressed: bool,
    v: MoveVector,
    f: ESpriteDirection,
)
    requires
        t.wf(),
    ensures
        a != ECharacterAttackState::IDLE && t.elapsed + dt < t.duration ==> {
            &&& !attack_fires(a, t, dt, pressed)
            &&& attack_after(a, t, dt, pressed, v, f) == a
        },
        attack_fires(a, t, dt, pressed) ==> a == ECharacterAttackState::IDLE || cooldown_ticked(
            a,
            t,
            dt,
        ).just_finished,
{
}

} // verus!
