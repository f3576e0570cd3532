use vstd::prelude::*;

use crate::components::{
    AnimationTimer, CharacterState, ECharacterAttackState, ESpriteDirection, SpriteDirection,
};
use crate::direction::{attack_facing, axis_facing, MoveVector};
use crate::player::{ATTACK_ANIM_SPEED, IDLE_ANIM_SPEED};
use crate::timer::TimerView;

verus! {

// Frames of the archer's tileset.
pub const DOWN_ATTACK_0: usize = 0;
pub const DOWN_ATTACK_1: usize = 1;
pub const LEFT_ATTACK_0: usize = 2;
pub const LEFT_ATTACK_1: usize = 3;
pub const RIGHT_ATTACK_0: usize = 4;
pub const RIGHT_ATTACK_1: usize = 5;
pub const UP_ATTACK_0: usize = 6;
pub const UP_ATTACK_1: usize = 7;
pub const DOWN_IDLE_0: usize = 9;
pub const DOWN_IDLE_1: usize = 10;
pub const LEFT_IDLE_0: usize = 11;
pub const LEFT_IDLE_1: usize = 12;
pub const RIGHT_IDLE_0: usize = 13;
pub const RIGHT_IDLE_1: usize = 14;
pub const UP_IDLE_0: usize = 15;
pub const UP_IDLE_1: usize = 16;

/// The two frames shown for a facing, attacking or not.
pub open spec fn frame_set(f: ESpriteDirection, attacking: bool) -> (usize, usize) {
    if attacking {
        match f {
            ESpriteDirection::UP => (UP_ATTACK_0, UP_ATTACK_1),
            ESpriteDirection::RIGHT => (RIGHT_ATTACK_0, RIGHT_ATTACK_1),
            ESpriteDirection::DOWN => (DOWN_ATTACK_0, DOWN_ATTACK_1),
            ESpriteDirection::LEFT => (LEFT_ATTACK_0, LEFT_ATTACK_1),
        }
    } else {
        match f {
            ESpriteDirection::UP => (UP_IDLE_0, UP_IDLE_1),
            ESpriteDirection::RIGHT => (RIGHT_IDLE_0, RIGHT_IDLE_1),
            ESpriteDirection::DOWN => (DOWN_IDLE_0, DOWN_IDLE_1),
            ESpriteDirection::LEFT => (LEFT_IDLE_0, LEFT_IDLE_1),
        }
    }
}

/// How long each frame shows, in nanoseconds.
pub open spec fn frame_duration(attacking: bool) -> nat {
    if attacking {
        ATTACK_ANIM_SPEED as nat
    } else {
        IDLE_ANIM_SPEED as nat
    }
}

pub open spec fn is_attacking(s: CharacterState) -> bool {
    s.0.1 != ECharacterAttackState::IDLE
}

pub open spec fn in_set(index: usize, set: (usize, usize)) -> bool {
    index == set.0 || index == set.1
}

/// The frame after `index` in a two-frame set: a frame from elsewhere snaps to the first;
/// otherwise an expired timer flips to the other frame and a running one keeps it.
pub open spec fn next_frame(index: usize, set: (usize, usize), expired: bool) -> usize {
    if !in_set(index, set) {
        set.0
    } else if !expired {
        index
    } else if index == set.0 {
        set.1
    } else {
        set.0
    }
}

/// The frame reached from `index` after `n` timer expirations in a row.
pub open spec fn frame_after_expirations(index: usize, set: (usize, usize), n: nat) -> usize
    decreases n,
{
    if n == 0 {
        index
    } else {
        next_frame(frame_after_expirations(index, set, (n - 1) as nat), set, true)
    }
}

/// The facing after a tick: an attack turns the sprite its way; otherwise walking along
/// one axis turns it, and standing still or walking diagonally keeps it.
pub open spec fn facing_after(f: ESpriteDirection, s: CharacterState, v: MoveVector) -> ESpriteDirection {
    if is_attacking(s) {
        attack_facing(s.0.1)
    } else if v.is_single_axis() {
        axis_facing(v)
    } else {
        f
    }
}

/// The two frames shown for a facing, attacking or not.
pub fn select_animation_set(facing: ESpriteDirection, is_attacking: bool) -> (r: (usize, usize))
    ensures
        r == frame_set(facing, is_attacking),
{
    if is_attacking {
        match facing {
            ESpriteDirection::UP => (UP_ATTACK_0, UP_ATTACK_1),
            ESpriteDirection::RIGHT => (RIGHT_ATTACK_0, RIGHT_ATTACK_1),
            ESpriteDirection::DOWN => (DOWN_ATTACK_0, DOWN_ATTACK_1),
            ESpriteDirection::LEFT => (LEFT_ATTACK_0, LEFT_ATTACK_1),
        }
    } else {
        match facing {
            ESpriteDirection::UP => (UP_IDLE_0, UP_IDLE_1),
            ESpriteDirection::RIGHT => (RIGHT_IDLE_0, RIGHT_IDLE_1),
            ESpriteDirection::DOWN => (DOWN_IDLE_0, DOWN_IDLE_1),
            ESpriteDirection::LEFT => (LEFT_IDLE_0, LEFT_IDLE_1),
        }
    }
}

/// Turns the sprite to match the character's attack, or its walk along one axis.
pub fn change_sprite(
    sprite_direction: &mut SpriteDirection,
    character_state: &CharacterState,
    move_vector: MoveVector,
)
    ensures
        final(sprite_direction).0 == facing_after(old(sprite_direction).0, *character_state, move_vector),
{
    // Attacking is shown in preference to walking.
    match character_state.0.1 {
        ECharacterAttackState::ATTACK_UP => sprite_direction.0 = ESpriteDirection::UP,
        ECharacterAttackState::ATTACK_UPRIGHT => sprite_direction.0 = ESpriteDirection::RIGHT,
        ECharacterAttackState::ATTACK_UPLEFT => sprite_direction.0 = ESpriteDirection::LEFT,
        ECharacterAttackState::ATTACK_RIGHT => sprite_direction.0 = ESpriteDirection::RIGHT,
        ECharacterAttackState::ATTACK_DOWN => sprite_direction.0 = ESpriteDirection::DOWN,
        ECharacterAttackState::ATTACK_DOWNRIGHT => sprite_direction.0 = ESpriteDirection::RIGHT,
        ECharacterAttackState::ATTACK_DOWNLEFT => sprite_direction.0 = ESpriteDirection::LEFT,
        ECharacterAttackState::ATTACK_LEFT => sprite_direction.0 = ESpriteDirection::LEFT,
        ECharacterAttackState::IDLE => {
            if move_vector.x != 0 && move_vector.y == 0 {
                sprite_direction.0 = if move_vector.x > 0 {
                    ESpriteDirection::RIGHT
                } else {
                    ESpriteDirection::LEFT
                };
            } else if move_vector.x == 0 && move_vector.y != 0 {
                sprite_direction.0 = if move_vector.y > 0 {
                    ESpriteDirection::UP
                } else {
                    ESpriteDirection::DOWN
                };
            }
        },
    }
}

/// Advances the animation by `delta` nanoseconds.
///
/// A frame outside the set for the current facing and mode snaps to the set's first
/// frame and restarts the timer with that mode's frame duration. Otherwise each expiry
/// of the timer flips between the two frames; however many periods pass in one call,
/// at most one flip happens.
pub fn animate_sprite(
    timer: &mut AnimationTimer,
    sprite_index: &mut usize,
    character_state: &CharacterState,
    sprite_direction: &SpriteDirection,
    delta: u64,
)
    requires
        old(timer).0@.wf(),
    ensures
        ({
            let set = frame_set(sprite_direction.0, is_attacking(*character_state));
            let ticked = old(timer).0@.ticked(delta as nat);
            &&& *final(sprite_index) == next_frame(*old(sprite_index), set, ticked.just_finished)
            &&& final(timer).0@ == if in_set(*old(sprite_index), set) {
                ticked
            } else {
                TimerView::restarted(frame_duration(is_attacking(*character_state)))
            }
        }),
        final(timer).0@.wf(),
{
    timer.0.tick(delta);
    let next_sprite = timer.0.just_finished();
    let attacking = character_state.0.1 != ECharacterAttackState::IDLE;
    let (first_index, second_index) = select_animation_set(sprite_direction.0, attacking);
    if *sprite_index != first_index && *sprite_index != second_index {
        // A new set of frames: start it from its first frame at its own pace.
        timer.0.reset();
        *sprite_index = first_index;
        if attacking {
            timer.0.set_duration(ATTACK_ANIM_SPEED);
        } else {
            timer.0.set_duration(IDLE_ANIM_SPEED);
        }
    } else if *sprite_index != first_index && next_sprite {
        *sprite_index = first_index;
    } else if *sprite_index == first_index && next_sprite {
        *sprite_index = second_index;
    }
}

/// While an attack is under way, the facing and the two frames shown depend on the
/// attack and the facing alone, never on the movement state or the keys held.
pub proof fn lemma_attack_priority(
    f: ESpriteDirection,
    s: CharacterState,
    t: CharacterState,
    v: MoveVector,
    w: MoveVector,
)
    requires
        is_attacking(s),
        s.0.1 == t.0.1,
    ensures
        facing_after(f, s, v) == facing_after(f, t, w),
        frame_set(facing_after(f, s, v), is_attacking(s)) == frame_set(facing_after(f, t, w), is_attacking(t)),
        frame_set(f, is_attacking(s)) == frame_set(f, is_attacking(t)),
{
}

/// Once on a frame of its set, each timer expiry moves the animation to the set's other
/// frame, never the same frame twice in a row, and an unexpired tick keeps the frame.
/// Started on the first frame, after `n` expirations it shows the first frame when `n`
/// is even and the second when `n` is odd.
pub proof fn lemma_oscillation(f: ESpriteDirection, attacking: bool, index: usize, n: nat)
    requires
        in_set(index, frame_set(f, attacking)),
    ensures
        ({
            let set = frame_set(f, attacking);
            &&& set.0 != set.1
            &&& in_set(next_frame(index, set, true), set)
            &&& next_frame(index, set, true) != index
            &&& next_frame(next_frame(index, set, true), set, true) == index
            &&& next_frame(index, set, false) == index
            &&& frame_after_expirations(set.0, set, n) == if n % 2 == 0 { set.0 } else { set.1 }
        }),
    decreases n,
{
    let set = frame_set(f, attacking);
    if n > 0 {
        lemma_oscillation(f, attacking, index, (n - 1) as nat);
    }
}

} // verus!
