use shooter_core::components::{ECharacterAttackState, Position};
use shooter_core::game::{advance_coordinate, clamp_coordinate, is_outside_arena};
use shooter_core::projectiles::{check_projectile_collisions, move_projectiles, ArcherArrow};

fn arrow(x: i64, y: i64, d: ECharacterAttackState) -> ArcherArrow {
    ArcherArrow::new(100, &Position { x, y }, &d)
}

#[test]
fn factory_table_for_all_directions() {
    let cases = [
        (ECharacterAttackState::ATTACK_UP, 0, 100, 2, false),
        (ECharacterAttackState::ATTACK_UPRIGHT, 66, 66, 1, true),
        (ECharacterAttackState::ATTACK_UPLEFT, -66, 66, 1, false),
        (ECharacterAttackState::ATTACK_RIGHT, 100, 0, 0, false),
        (ECharacterAttackState::ATTACK_DOWN, 0, -100, 2, false),
        (ECharacterAttackState::ATTACK_DOWNRIGHT, 60, -60, 1, false),
        (ECharacterAttackState::ATTACK_DOWNLEFT, -60, -60, 1, true),
        (ECharacterAttackState::ATTACK_LEFT, -100, 0, 0, false),
    ];
    for (d, hx, hy, texture, flip) in cases {
        let a = ArcherArrow::new(7, &Position { x: 5, y: -3 }, &d);
        assert_eq!(a.velocity.x, hx * 7 * 10_000);
        assert_eq!(a.velocity.y, hy * 7 * 10_000);
        assert_eq!(a.texture_index, texture);
        assert_eq!(a.flip_x, flip);
        assert_eq!(a.position, Position { x: 5, y: -3 });
    }
}

#[test]
fn bounds_are_exclusive_inside_and_inclusive_outside() {
    assert!(!is_outside_arena(&Position { x: 209_999_999, y: 119_999_999 }));
    assert!(!is_outside_arena(&Position { x: -209_999_999, y: -159_999_999 }));
    assert!(is_outside_arena(&Position { x: 210_000_000, y: 0 }));
    assert!(is_outside_arena(&Position { x: -210_000_000, y: 0 }));
    assert!(is_outside_arena(&Position { x: 0, y: 120_000_000 }));
    assert!(is_outside_arena(&Position { x: 0, y: -160_000_000 }));
    assert!(is_outside_arena(&Position { x: 0, y: -500_000_000 }));
}

#[test]
fn collisions_keep_inside_arrows_in_order() {
    let mut arrows = vec![
        arrow(0, 0, ECharacterAttackState::ATTACK_UP),
        arrow(210_000_000, 0, ECharacterAttackState::ATTACK_UP),
        arrow(1, 2, ECharacterAttackState::ATTACK_LEFT),
        arrow(0, -160_000_000, ECharacterAttackState::ATTACK_UP),
        arrow(3, 4, ECharacterAttackState::ATTACK_DOWN),
    ];
    check_projectile_collisions(&mut arrows);
    assert_eq!(arrows.len(), 3);
    assert_eq!(arrows[0].position, Position { x: 0, y: 0 });
    assert_eq!(arrows[1].position, Position { x: 1, y: 2 });
    assert_eq!(arrows[2].position, Position { x: 3, y: 4 });
    let mut none: Vec<ArcherArrow> = Vec::new();
    check_projectile_collisions(&mut none);
    assert!(none.is_empty());
}

#[test]
fn arrows_fly_at_constant_velocity() {
    let mut arrows = vec![arrow(0, 0, ECharacterAttackState::ATTACK_DOWNLEFT), arrow(10, 10, ECharacterAttackState::ATTACK_UP)];
    move_projectiles(&mut arrows, 500_000_000);
    // 60 hundredths at 100 units per second for half a second: 30 units.
    assert_eq!(arrows[0].position, Position { x: -30_000_000, y: -30_000_000 });
    assert_eq!(arrows[1].position, Position { x: 10, y: 50_000_010 });
    move_projectiles(&mut arrows, 500_000_000);
    assert_eq!(arrows[0].position, Position { x: -60_000_000, y: -60_000_000 });
}

#[test]
fn coordinates_round_towards_zero_and_saturate() {
    assert_eq!(advance_coordinate(0, 3, 500_000_000), 1);
    assert_eq!(advance_coordinate(0, -3, 500_000_000), -1);
    assert_eq!(advance_coordinate(10, 0, u64::MAX), 10);
    assert_eq!(advance_coordinate(i64::MAX - 1, i64::MAX, u64::MAX), i64::MAX);
    assert_eq!(advance_coordinate(i64::MIN + 1, i64::MIN, u64::MAX), i64::MIN);
    assert_eq!(clamp_coordinate(5, -1, 3), 3);
    assert_eq!(clamp_coordinate(-5, -1, 3), -1);
    assert_eq!(clamp_coordinate(2, -1, 3), 2);
}
