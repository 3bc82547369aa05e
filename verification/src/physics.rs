use crate::game_object::GameObject;
use crate::physics::player_physics::PlayerPhysics;
use crate::rect::{rect_in_bounds, Rect, RectModel, COORD_LIMIT};
use vstd::prelude::*;

pub mod player_physics;

verus! {

/// Downward drift of a flame, in tenths of a unit per tick.
pub const FIRE_FALL_SPEED: i64 = 40;

/// Downward drift of a sword, in tenths of a unit per tick.
pub const SWORD_FALL_SPEED: i64 = 60;

/// Downward drift of a snake, in tenths of a unit per tick.
pub const SNAKE_FALL_SPEED: i64 = 30;

/// Downward drift of a heart, in tenths of a unit per tick.
pub const HEART_FALL_SPEED: i64 = 20;

/// Snapshot of the movement keys for one tick, as the input backend saw
/// them. The core never polls a keyboard; it is handed these three flags.
#[derive(Clone, Copy, PartialEq, Eq, Structural, Debug)]
pub struct InputState {
    pub left: bool,
    pub right: bool,
    pub jump: bool,
}

/// No key held down.
pub open spec fn no_input() -> InputState {
    InputState { left: false, right: false, jump: false }
}

pub struct FirePhysics {
    pub fall_speed: i64,
}

pub struct SwordPhysics {
    pub fall_speed: i64,
}

pub struct SnakePhysics {
    pub fall_speed: i64,
}

pub struct HeartPhysics {
    pub fall_speed: i64,
}

impl FirePhysics {
    pub fn new() -> (r: FirePhysics)
        ensures
            r.fall_speed == FIRE_FALL_SPEED,
    {
        FirePhysics { fall_speed: FIRE_FALL_SPEED }
    }
}

impl SwordPhysics {
    pub fn new() -> (r: SwordPhysics)
        ensures
            r.fall_speed == SWORD_FALL_SPEED,
    {
        SwordPhysics { fall_speed: SWORD_FALL_SPEED }
    }
}

impl SnakePhysics {
    pub fn new() -> (r: SnakePhysics)
        ensures
            r.fall_speed == SNAKE_FALL_SPEED,
    {
        SnakePhysics { fall_speed: SNAKE_FALL_SPEED }
    }
}

impl HeartPhysics {
    pub fn new() -> (r: HeartPhysics)
        ensures
            r.fall_speed == HEART_FALL_SPEED,
    {
        HeartPhysics { fall_speed: HEART_FALL_SPEED }
    }
}

/// A rectangle after one tick of steady falling.
pub open spec fn falling_step(r: RectModel, fall_speed: int) -> RectModel {
    RectModel { x: r.x, y: r.y + fall_speed, w: r.w, h: r.h }
}

/// Movement strategy of an entity: one variant per spawnable kind plus the
/// player. The spawned kinds drift down the arena at a constant speed and
/// ignore input and collisions; the player follows the full movement rules
/// of [`player_physics`].
pub enum PhysicsSystem {
    Player(PlayerPhysics),
    Fire(FirePhysics),
    Sword(SwordPhysics),
    Snake(SnakePhysics),
    Heart(HeartPhysics),
}

impl PhysicsSystem {
    /// The drift of a spawned (non-player) variant; unused for the player.
    pub open spec fn drift(&self) -> int {
        match self {
            PhysicsSystem::Player(_) => 0,
            PhysicsSystem::Fire(p) => p.fall_speed as int,
            PhysicsSystem::Sword(p) => p.fall_speed as int,
            PhysicsSystem::Snake(p) => p.fall_speed as int,
            PhysicsSystem::Heart(p) => p.fall_speed as int,
        }
    }

    /// Shared per-tick movement rule of the whole strategy family: mutates
    /// the owning entity's rectangle in place and reports the index of the
    /// first collided object, if the variant watches for collisions at all.
    pub fn update(
        &mut self,
        location: &mut Rect,
        arena: (i64, i64),
        gravity_force: i64,
        input: InputState,
        collidable_game_objects: &Vec<GameObject>,
    ) -> (collision: Option<usize>)
        requires
            rect_in_bounds(old(location)@),
            0 <= old(location)@.w,
            0 <= old(location)@.h,
            0 <= arena.0 <= COORD_LIMIT,
            0 <= arena.1 <= COORD_LIMIT,
            -COORD_LIMIT <= gravity_force <= COORD_LIMIT,
            *old(self) matches PhysicsSystem::Player(p) ==> player_physics::player_in_bounds(
                p@,
            ),
            -COORD_LIMIT <= old(self).drift() <= COORD_LIMIT,
            forall|j: int|
                0 <= j < collidable_game_objects@.len() ==> rect_in_bounds(
                    #[trigger] collidable_game_objects@[j].location@,
                ),
        ensures
            *old(self) matches PhysicsSystem::Player(p0) ==> ({
                &&& *final(self) matches PhysicsSystem::Player(p1) && (
                p1@,
                final(location)@,
                ) == player_physics::player_tick(
                    p0@,
                    old(location)@,
                    arena.0 as int,
                    arena.1 as int,
                    gravity_force as int,
                    input,
                )
                &&& player_physics::is_first_hit(
                    collidable_game_objects@,
                    player_physics::clamp_step(
                        player_physics::input_step(p0@, input),
                        old(location)@,
                        arena.0 as int,
                        arena.1 as int,
                    ).1,
                    collision,
                )
            }),
            !(*old(self) is Player) ==> {
                &&& *final(self) == *old(self)
                &&& final(location)@ == falling_step(old(location)@, old(self).drift())
                &&& collision is None
            },
    {
        match self {
            PhysicsSystem::Player(p) => p.update(
                location,
                arena,
                gravity_force,
                input,
                collidable_game_objects,
            ),
            PhysicsSystem::Fire(p) => {
                location.y = location.y + p.fall_speed;
                None
            },
            PhysicsSystem::Sword(p) => {
                location.y = location.y + p.fall_speed;
                None
            },
            PhysicsSystem::Snake(p) => {
                location.y = location.y + p.fall_speed;
                None
            },
            PhysicsSystem::Heart(p) => {
                location.y = location.y + p.fall_speed;
                None
            },
        }
    }
}

} // verus!
