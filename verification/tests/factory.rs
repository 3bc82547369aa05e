use chat_arena::chatter::Chatter;
use chat_arena::command::{Command, CommandType};
use chat_arena::game_object::GameObjectType;
use chat_arena::life_system::LifeSystem;
use chat_arena::physics::PhysicsSystem;
use chat_arena::sprite::Sprite;

fn chatter(name: &str) -> Chatter {
    Chatter { username: String::from(name) }
}

fn command(ty: CommandType) -> Command {
    Command { command_type: ty, id: 0, chatter: chatter("bob") }
}

#[test]
fn example_fire_spawn() {
    let c = Command::new("#fire 3", chatter("alice")).unwrap().unwrap();
    assert_eq!(c.command_type, CommandType::Fire);
    assert_eq!(c.id, 3);
    assert_eq!(c.chatter.username, "alice");

    // Drop at (100, 100) world units, i.e. (1000, 1000) tenths; a 24x16
    // unit sprite at scale 2.0 gives a 48x32 unit entity.
    let g = c.handle(1000, 1000, Some(Sprite::new(240, 160)));
    assert_eq!(g.location.w, 480);
    assert_eq!(g.location.h, 320);
    assert_eq!(g.location.x, 1000 - 240);
    assert_eq!(g.location.y, 1000 - 160);
    assert_eq!(g.location.x + g.location.w / 2, 1000);
    assert_eq!(g.location.y + g.location.h / 2, 1000);
    assert_eq!(g.object_type, GameObjectType::Enemy);
    assert!(g.is_solid);
    let d = g.draw_system.unwrap();
    assert_eq!(d.scale_tenths, 20);
    assert_eq!(g.chatter.unwrap().username, "alice");
}

#[test]
fn entity_is_centered_on_fallback_square() {
    let g = command(CommandType::Sword).handle(1000, 900, None);
    assert_eq!(g.location.w, 500);
    assert_eq!(g.location.h, 500);
    assert_eq!(g.location.x, 750);
    assert_eq!(g.location.y, 650);
    assert_eq!(g.location.x + g.location.w / 2, 1000);
    assert_eq!(g.location.y + g.location.h / 2, 900);
}

#[test]
fn entity_is_centered_with_odd_size() {
    // Heart scale is 1.5: a 33-tenths sprite becomes 49 tenths wide, and
    // the center stays on the drop point under integer halving.
    let g = command(CommandType::Heart).handle(600, 400, Some(Sprite::new(33, 33)));
    assert_eq!(g.location.w, 49);
    assert_eq!(g.location.x, 600 - 24);
    assert_eq!(g.location.x + g.location.w / 2, 600);
    assert_eq!(g.location.y + g.location.h / 2, 400);
}

#[test]
fn hearts_are_pickups_the_rest_enemies() {
    let cases = [
        (CommandType::Fire, GameObjectType::Enemy),
        (CommandType::Sword, GameObjectType::Enemy),
        (CommandType::Snake, GameObjectType::Enemy),
        (CommandType::Heart, GameObjectType::Heart),
    ];
    for (ty, expected) in cases {
        let g = command(ty).handle(0, 0, None);
        assert_eq!(g.object_type, expected);
    }
}

#[test]
fn scale_table_in_tenths() {
    assert_eq!(command(CommandType::Fire).scale_tenths(), 20);
    assert_eq!(command(CommandType::Sword).scale_tenths(), 30);
    assert_eq!(command(CommandType::Snake).scale_tenths(), 30);
    assert_eq!(command(CommandType::Heart).scale_tenths(), 15);
}

#[test]
fn sprite_source_table() {
    let cases = [
        (CommandType::Fire, "/LargeFlame.png", 4),
        (CommandType::Sword, "/item1BIT_sword.png", 1),
        (CommandType::Snake, "/snake.png", 4),
        (CommandType::Heart, "/heart.png", 1),
    ];
    for (ty, path, frames) in cases {
        let s = command(ty).sprite_source();
        assert_eq!(s.path, path);
        assert_eq!(s.frames, frames);
        assert_eq!(s.rows, 1);
    }
}

#[test]
fn strategies_match_the_command_type() {
    let g = command(CommandType::Fire).handle(0, 0, None);
    assert!(matches!(g.physics_system, Some(PhysicsSystem::Fire(_))));
    assert!(matches!(g.life_system, Some(LifeSystem::Fire(_))));

    let g = command(CommandType::Heart).handle(0, 0, None);
    assert!(matches!(g.physics_system, Some(PhysicsSystem::Heart(_))));
    assert!(matches!(g.life_system, Some(LifeSystem::Heart(_))));

    let g = command(CommandType::Sword).handle(0, 0, None);
    assert!(matches!(g.physics_system, Some(PhysicsSystem::Sword(_))));
    assert!(matches!(g.life_system, Some(LifeSystem::Sword(_))));

    let g = command(CommandType::Snake).handle(0, 0, None);
    assert!(matches!(g.physics_system, Some(PhysicsSystem::Snake(_))));
    assert!(matches!(g.life_system, Some(LifeSystem::Snake(_))));
}
