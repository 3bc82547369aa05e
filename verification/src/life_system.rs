use vstd::prelude::*;

verus! {

/// Frames a flame burns before it goes out.
pub const FIRE_LIFETIME: u32 = 240;

/// Hits a sword survives before it shatters.
pub const SWORD_LIFETIME: u32 = 1;

/// Frames a snake lives before it crawls away.
pub const SNAKE_LIFETIME: u32 = 240;

/// Hits a heart survives before it is picked up.
pub const HEART_LIFETIME: u32 = 1;

pub struct FireLifeSystem {
    pub remaining: u32,
}

pub struct SwordLifeSystem {
    pub remaining: u32,
}

pub struct SnakeLifeSystem {
    pub remaining: u32,
}

pub struct HeartLifeSystem {
    pub remaining: u32,
}

impl FireLifeSystem {
    pub fn new() -> (r: FireLifeSystem)
        ensures
            r.remaining == FIRE_LIFETIME,
    {
        FireLifeSystem { remaining: FIRE_LIFETIME }
    }
}

impl SwordLifeSystem {
    pub fn new() -> (r: SwordLifeSystem)
        ensures
            r.remaining == SWORD_LIFETIME,
    {
        SwordLifeSystem { remaining: SWORD_LIFETIME }
    }
}

impl SnakeLifeSystem {
    pub fn new() -> (r: SnakeLifeSystem)
        ensures
            r.remaining == SNAKE_LIFETIME,
    {
        SnakeLifeSystem { remaining: SNAKE_LIFETIME }
    }
}

impl HeartLifeSystem {
    pub fn new() -> (r: HeartLifeSystem)
        ensures
            r.remaining == HEART_LIFETIME,
    {
        HeartLifeSystem { remaining: HEART_LIFETIME }
    }
}

/// Survival strategy of an entity: one variant per spawnable kind, each
/// tracking how much lifetime (for the timed kinds) or how many hits (for
/// the hit-based kinds) the owning entity has left. Running out is the only
/// removal trigger the game loop acts on; no variant touches physics or
/// draw state.
pub enum LifeSystem {
    Fire(FireLifeSystem),
    Sword(SwordLifeSystem),
    Snake(SnakeLifeSystem),
    Heart(HeartLifeSystem),
}

impl LifeSystem {
    /// Lifetime or hit count still left.
    pub open spec fn remaining(&self) -> int {
        match self {
            LifeSystem::Fire(s) => s.remaining as int,
            LifeSystem::Sword(s) => s.remaining as int,
            LifeSystem::Snake(s) => s.remaining as int,
            LifeSystem::Heart(s) => s.remaining as int,
        }
    }

    /// Both values are the same variant of the family.
    pub open spec fn same_kind(&self, other: &LifeSystem) -> bool {
        match (self, other) {
            (LifeSystem::Fire(_), LifeSystem::Fire(_)) => true,
            (LifeSystem::Sword(_), LifeSystem::Sword(_)) => true,
            (LifeSystem::Snake(_), LifeSystem::Snake(_)) => true,
            (LifeSystem::Heart(_), LifeSystem::Heart(_)) => true,
            _ => false,
        }
    }

    /// The query the game loop asks every frame: does the owning entity stay?
    pub fn is_alive(&self) -> (r: bool)
        ensures
            r == (self.remaining() > 0),
    {
        match self {
            LifeSystem::Fire(s) => s.remaining > 0,
            LifeSystem::Sword(s) => s.remaining > 0,
            LifeSystem::Snake(s) => s.remaining > 0,
            LifeSystem::Heart(s) => s.remaining > 0,
        }
    }

    /// Consume one unit of lifetime: a frame for the timed variants, a hit
    /// for the hit-based ones. Exhausted systems stay exhausted.
    pub fn expend(&mut self)
        ensures
            final(self).remaining() == if old(self).remaining() > 0 {
                old(self).remaining() - 1
            } else {
                0
            },
            final(self).same_kind(old(self)),
    {
        match self {
            LifeSystem::Fire(s) => {
                if s.remaining > 0 {
                    s.remaining = s.remaining - 1;
                }
            },
            LifeSystem::Sword(s) => {
                if s.remaining > 0 {
                    s.remaining = s.remaining - 1;
                }
            },
            LifeSystem::Snake(s) => {
                if s.remaining > 0 {
                    s.remaining = s.remaining - 1;
                }
            },
            LifeSystem::Heart(s) => {
                if s.remaining > 0 {
                    s.remaining = s.remaining - 1;
                }
            },
        }
    }
}

} // verus!
