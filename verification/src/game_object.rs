use crate::chatter::Chatter;
use crate::draw_system::DrawSystem;
use crate::life_system::LifeSystem;
use crate::physics::PhysicsSystem;
use crate::rect::{Rect, RectModel};
use vstd::prelude::*;

verus! {

/// Collision and removal semantics the game loop applies to an entity.
#[derive(Clone, Copy, PartialEq, Eq, Structural, Debug)]
pub enum GameObjectType {
    Player,
    Enemy,
    Heart,
}

/// An entity in the arena: a location rectangle plus the strategies that
/// draw it, move it and decide how long it lives. Each strategy slot is
/// owned by exactly this entity; physics moves `x`/`y` of the rectangle
/// only, while `w`/`h` stay as the factory set them.
pub struct GameObject {
    pub location: Rect,
    pub draw_system: Option<DrawSystem>,
    pub physics_system: Option<PhysicsSystem>,
    pub is_solid: bool,
    pub chatter: Option<Chatter>,
    pub object_type: GameObjectType,
    pub life_system: Option<LifeSystem>,
}

impl GameObject {
    #[allow(clippy::too_many_arguments)]
    pub fn new(
        x: i64,
        y: i64,
        draw_system: Option<DrawSystem>,
        width: i64,
        height: i64,
        physics_system: Option<PhysicsSystem>,
        is_solid: bool,
        chatter: Option<Chatter>,
        object_type: GameObjectType,
        life_system: Option<LifeSystem>,
    ) -> (g: GameObject)
        ensures
            g.location@ == (RectModel {
                x: x as int,
                y: y as int,
                w: width as int,
                h: height as int,
            }),
            g.draw_system == draw_system,
            g.physics_system == physics_system,
            g.is_solid == is_solid,
            g.chatter == chatter,
            g.object_type == object_type,
            g.life_system == life_system,
    {
        GameObject {
            location: Rect { x, y, w: width, h: height },
            draw_system,
            physics_system,
            is_solid,
            chatter,
            object_type,
            life_system,
        }
    }
}

} // verus!
