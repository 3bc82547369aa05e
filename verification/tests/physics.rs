use chat_arena::game_object::{GameObject, GameObjectType};
use chat_arena::physics::player_physics::PlayerPhysics;
use chat_arena::physics::{FirePhysics, InputState, PhysicsSystem};
use chat_arena::rect::Rect;

const ARENA: (i64, i64) = (20000, 10000);
const GRAVITY: i64 = 10;

fn idle() -> InputState {
    InputState { left: false, right: false, jump: false }
}

fn solid_block(x: i64, y: i64, w: i64, h: i64) -> GameObject {
    GameObject::new(x, y, None, w, h, None, true, None, GameObjectType::Enemy, None)
}

#[test]
fn player_settles_exactly_on_the_floor() {
    let mut p = PlayerPhysics::new();
    let mut loc = Rect::new(100, 0, 100, 200);
    let nobody: Vec<GameObject> = vec![];
    for _ in 0..200 {
        p.update(&mut loc, ARENA, GRAVITY, idle(), &nobody);
    }
    assert_eq!(loc.y, ARENA.1 - loc.h);
    assert_eq!(p.velocity_y, 0);
    assert!(!p.affected_by_gravity);
    for _ in 0..20 {
        p.update(&mut loc, ARENA, GRAVITY, idle(), &nobody);
        assert_eq!(loc.y, ARENA.1 - loc.h);
        assert_eq!(p.velocity_y, 0);
    }
}

#[test]
fn friction_decays_by_fifteen_hundredths_per_tick() {
    let mut p = PlayerPhysics::new();
    let mut loc = Rect::new(10000, 100, 100, 100);
    let nobody: Vec<GameObject> = vec![];
    let left = InputState { left: true, right: false, jump: false };
    // One tick of left input under zero gravity: the push of 20 tenths is
    // cut by 20 * 15 / 100 = 3 the same tick.
    p.update(&mut loc, ARENA, 0, left, &nobody);
    assert_eq!(p.velocity_x, -17);
    // Each idle tick then removes |v| * 15 / 100, rounded toward zero.
    let expected = [-15, -13, -12, -11, -10, -9, -8, -7, -6, -6, -6];
    for &v in expected.iter() {
        p.update(&mut loc, ARENA, 0, idle(), &nobody);
        assert_eq!(p.velocity_x, v);
    }
    // The velocity never reaches zero, it only stalls near it.
    for _ in 0..100 {
        p.update(&mut loc, ARENA, 0, idle(), &nobody);
        assert_eq!(p.velocity_x, -6);
    }
}

#[test]
fn horizontal_clamp_holds_the_arena_bounds() {
    let nobody: Vec<GameObject> = vec![];
    let mut p = PlayerPhysics::new();
    let mut loc = Rect::new(-500, 100, 100, 100);
    p.update(&mut loc, ARENA, 0, idle(), &nobody);
    assert_eq!(loc.x, 0);

    let mut p = PlayerPhysics::new();
    let mut loc = Rect::new(ARENA.0 + 5000, 100, 100, 100);
    p.update(&mut loc, ARENA, 0, idle(), &nobody);
    assert_eq!(loc.x, ARENA.0 - 100);

    // However large the velocity got, the clamp phase of the next tick
    // pulls the position back in range; with the velocity gone it stays.
    let mut p = PlayerPhysics::new();
    p.velocity_x = 100000;
    let mut loc = Rect::new(100, 100, 100, 100);
    p.update(&mut loc, ARENA, 0, idle(), &nobody);
    p.velocity_x = 0;
    p.update(&mut loc, ARENA, 0, idle(), &nobody);
    assert!(0 <= loc.x && loc.x <= ARENA.0 - loc.w);
}

#[test]
fn jump_is_honored_only_on_the_ground() {
    let nobody: Vec<GameObject> = vec![];
    let mut p = PlayerPhysics::new();
    let mut loc = Rect::new(100, ARENA.1 - 100, 100, 200);
    // First tick grounds the player (its bottom edge is past the floor).
    p.update(&mut loc, ARENA, GRAVITY, idle(), &nobody);
    assert!(!p.affected_by_gravity);
    let jump = InputState { left: false, right: false, jump: true };
    p.update(&mut loc, ARENA, GRAVITY, jump, &nobody);
    // The jump sets -85, then gravity pulls while airborne.
    assert_eq!(p.velocity_y, -85 + GRAVITY);
    assert!(p.affected_by_gravity);
    assert_eq!(loc.y, ARENA.1 - 200 + (-85 + GRAVITY));
    // A second jump in the air is ignored.
    let vy = p.velocity_y;
    p.update(&mut loc, ARENA, GRAVITY, jump, &nobody);
    assert_eq!(p.velocity_y, vy + GRAVITY);
}

#[test]
fn both_keys_resolve_to_left() {
    let nobody: Vec<GameObject> = vec![];
    let mut p = PlayerPhysics::new();
    let mut loc = Rect::new(10000, 100, 100, 100);
    let both = InputState { left: true, right: true, jump: false };
    p.update(&mut loc, ARENA, 0, both, &nobody);
    assert!(p.velocity_x < 0);
}

#[test]
fn spawned_variants_drift_down_and_ignore_input() {
    let nobody: Vec<GameObject> = vec![];
    let mut system = PhysicsSystem::Fire(FirePhysics::new());
    let mut loc = Rect::new(300, 200, 80, 80);
    let busy = InputState { left: true, right: false, jump: true };
    let hit = system.update(&mut loc, ARENA, GRAVITY, busy, &nobody);
    assert_eq!(hit, None);
    assert_eq!(loc.x, 300);
    assert_eq!(loc.y, 240);
}

#[test]
fn collision_reports_the_first_overlap() {
    let mut p = PlayerPhysics::new();
    let mut loc = Rect::new(100, 100, 100, 100);
    let objects = vec![
        solid_block(1000, 1000, 50, 50),
        solid_block(150, 150, 50, 50),
        solid_block(120, 120, 50, 50),
    ];
    let hit = p.update(&mut loc, ARENA, 0, idle(), &objects);
    assert_eq!(hit, Some(1));

    let mut p = PlayerPhysics::new();
    let mut loc = Rect::new(100, 100, 100, 100);
    let objects = vec![solid_block(1000, 1000, 50, 50)];
    let hit = p.update(&mut loc, ARENA, 0, idle(), &objects);
    assert_eq!(hit, None);
}
