use crate::game_object::GameObject;
use crate::physics::{no_input, InputState};
use crate::rect::{overlaps_spec, rect_in_bounds, Rect, RectModel, COORD_LIMIT};
use vstd::arithmetic::div_mod::{lemma_fundamental_div_mod, lemma_mod_bound};
use vstd::prelude::*;

verus! {

/// Sideways push one tick of a held movement key adds, in tenths of a unit
/// per tick.
pub const MOVE_FORCE: i64 = 20;

/// Vertical velocity a jump sets, in tenths of a unit per tick; negative is
/// up.
pub const JUMP_FORCE: i64 = -85;

/// Movement state of the player entity. `affected_by_gravity` doubles as
/// the airborne flag: the player is on the ground exactly when it is false.
pub struct PlayerPhysics {
    pub velocity_x: i64,
    pub velocity_y: i64,
    pub affected_by_gravity: bool,
}

/// Mathematical image of [`PlayerPhysics`], used by every contract.
pub ghost struct PlayerModel {
    pub vx: int,
    pub vy: int,
    pub airborne: bool,
}

impl View for PlayerPhysics {
    type V = PlayerModel;

    open spec fn view(&self) -> PlayerModel {
        PlayerModel {
            vx: self.velocity_x as int,
            vy: self.velocity_y as int,
            airborne: self.affected_by_gravity,
        }
    }
}

/// Both velocity components are within [`COORD_LIMIT`].
pub open spec fn player_in_bounds(p: PlayerModel) -> bool {
    &&& -COORD_LIMIT <= p.vx <= COORD_LIMIT
    &&& -COORD_LIMIT <= p.vy <= COORD_LIMIT
}

/// Input phase of a tick. A held left key pushes left; otherwise a held
/// right key pushes right, so pressing both resolves to left. A jump is
/// honored only on the ground: it sets the upward impulse and marks the
/// player airborne.
pub open spec fn input_step(p: PlayerModel, input: InputState) -> PlayerModel {
    let vx = if input.left {
        p.vx - MOVE_FORCE
    } else if input.right {
        p.vx + MOVE_FORCE
    } else {
        p.vx
    };
    if input.jump && !p.airborne {
        PlayerModel { vx, vy: JUMP_FORCE as int, airborne: true }
    } else {
        PlayerModel { vx, vy: p.vy, airborne: p.airborne }
    }
}

/// Arena containment phase of a tick. A player whose bottom edge would pass
/// the floor is set to rest exactly on it, with vertical velocity zeroed
/// and the grounded flag set; the horizontal position is clamped to
/// `[0, arena_w - w]` unconditionally, with no velocity change.
pub open spec fn clamp_step(p: PlayerModel, r: RectModel, arena_w: int, arena_h: int) -> (
    PlayerModel,
    RectModel,
) {
    let landing = r.y + r.h > arena_h;
    let p1 = if landing {
        PlayerModel { vx: p.vx, vy: 0, airborne: false }
    } else {
        p
    };
    let y1 = if landing {
        arena_h - r.h
    } else {
        r.y
    };
    let x1 = if r.x < 0 {
        0
    } else if r.x + r.w > arena_w {
        arena_w - r.w
    } else {
        r.x
    };
    (p1, RectModel { x: x1, y: y1, w: r.w, h: r.h })
}

/// Friction phase of a tick: the horizontal velocity loses 15/100 of
/// itself, rounded toward zero, so it decays toward zero without ever
/// flipping sign.
pub open spec fn friction_step(v: int) -> int {
    if v > 0 {
        v - (v * 15) / 100
    } else if v < 0 {
        v + ((-v) * 15) / 100
    } else {
        0
    }
}

/// One whole tick of player movement, in order: input, arena containment,
/// gravity while airborne, position integration, horizontal friction.
pub open spec fn player_tick(
    p: PlayerModel,
    r: RectModel,
    arena_w: int,
    arena_h: int,
    gravity: int,
    input: InputState,
) -> (PlayerModel, RectModel) {
    let pa = input_step(p, input);
    let (pb, rb) = clamp_step(pa, r, arena_w, arena_h);
    let pc = PlayerModel {
        vx: pb.vx,
        vy: if pb.airborne {
            pb.vy + gravity
        } else {
            pb.vy
        },
        airborne: pb.airborne,
    };
    let rc = RectModel { x: rb.x + pc.vx, y: rb.y + pc.vy, w: rb.w, h: rb.h };
    let pd = PlayerModel { vx: friction_step(pc.vx), vy: pc.vy, airborne: pc.airborne };
    (pd, rc)
}

/// `report` is the index of the first object in `objs` whose rectangle
/// overlaps `loc`, or `None` when none does.
pub open spec fn is_first_hit(objs: Seq<GameObject>, loc: RectModel, report: Option<usize>) -> bool {
    match report {
        Some(i) => {
            &&& 0 <= i < objs.len()
            &&& overlaps_spec(objs[i as int].location@, loc)
            &&& forall|j: int|
                0 <= j < i as int ==> !(#[trigger] overlaps_spec(objs[j].location@, loc))
        },
        None => forall|j: int|
            0 <= j < objs.len() ==> !(#[trigger] overlaps_spec(objs[j].location@, loc)),
    }
}

/// The state `k` idle ticks (no key held) after `(p, r)`.
pub open spec fn tick_idle_n(
    p: PlayerModel,
    r: RectModel,
    arena_w: int,
    arena_h: int,
    gravity: int,
    k: nat,
) -> (PlayerModel, RectModel)
    decreases k,
{
    if k == 0 {
        (p, r)
    } else {
        let (p1, r1) = player_tick(p, r, arena_w, arena_h, gravity, no_input());
        tick_idle_n(p1, r1, arena_w, arena_h, gravity, (k - 1) as nat)
    }
}

impl PlayerPhysics {
    pub fn new() -> (r: PlayerPhysics)
        ensures
            r@ == (PlayerModel { vx: 0, vy: 0, airborne: true }),
    {
        PlayerPhysics { velocity_x: 0, velocity_y: 0, affected_by_gravity: true }
    }

    fn handle_input(&mut self, input: InputState)
        requires
            player_in_bounds(old(self)@),
        ensures
            final(self)@ == input_step(old(self)@, input),
    {
        if input.left {
            self.velocity_x = self.velocity_x - MOVE_FORCE;
        } else if input.right {
            self.velocity_x = self.velocity_x + MOVE_FORCE;
        }
        if input.jump && self.on_ground() {
            self.velocity_y = JUMP_FORCE;
            self.affected_by_gravity = true;
        }
    }

    fn on_ground(&self) -> (r: bool)
        ensures
            r == !self@.airborne,
    {
        !self.affected_by_gravity
    }

    fn stay_in_arena(&mut self, location: &mut Rect, arena: (i64, i64))
        requires
            rect_in_bounds(old(location)@),
            -COORD_LIMIT <= arena.0 <= COORD_LIMIT,
            -COORD_LIMIT <= arena.1 <= COORD_LIMIT,
        ensures
            (final(self)@, final(location)@) == clamp_step(
                old(self)@,
                old(location)@,
                arena.0 as int,
                arena.1 as int,
            ),
    {
        let (arena_width, arena_height) = arena;
        if location.y + location.h > arena_height {
            self.affected_by_gravity = false;
            self.velocity_y = 0;
            location.y = arena_height - location.h;
        }
        if location.x < 0 {
            location.x = 0;
        } else if location.x + location.w > arena_width {
            location.x = arena_width - location.w;
        }
    }

    fn get_colliding_with(
        &self,
        collidable_game_objects: &Vec<GameObject>,
        location: &Rect,
    ) -> (r: Option<usize>)
        requires
            rect_in_bounds(location@),
            forall|j: int|
                0 <= j < collidable_game_objects@.len() ==> rect_in_bounds(
                    #[trigger] collidable_game_objects@[j].location@,
                ),
        ensures
            is_first_hit(collidable_game_objects@, location@, r),
    {
        let mut i: usize = 0;
        while i < collidable_game_objects.len()
            invariant
                i <= collidable_game_objects@.len(),
                rect_in_bounds(location@),
                forall|j: int|
                    0 <= j < collidable_game_objects@.len() ==> rect_in_bounds(
                        #[trigger] collidable_game_objects@[j].location@,
                    ),
                forall|j: int|
                    0 <= j < i as int ==> !(#[trigger] overlaps_spec(
                        collidable_game_objects@[j].location@,
                        location@,
                    )),
            decreases collidable_game_objects@.len() - i,
        {
            if collidable_game_objects[i].location.overlaps(location) {
                return Some(i);
            }
            i = i + 1;
        }
        None
    }

    fn apply_friction(&mut self)
        requires
            -COORD_LIMIT - 100 <= old(self).velocity_x <= COORD_LIMIT + 100,
        ensures
            final(self)@ == (PlayerModel {
                vx: friction_step(old(self)@.vx),
                vy: old(self)@.vy,
                airborne: old(self)@.airborne,
            }),
    {
        if self.velocity_x > 0 {
            let mag: u64 = self.velocity_x as u64;
            let dec: u64 = mag * 15 / 100;
            self.velocity_x = self.velocity_x - (dec as i64);
        } else if self.velocity_x < 0 {
            let mag: u64 = (-self.velocity_x) as u64;
            let dec: u64 = mag * 15 / 100;
            self.velocity_x = self.velocity_x + (dec as i64);
        }
    }

    /// One tick of player movement against the arena and the given input,
    /// reporting the first collidable object overlapped, if any.
    pub fn update(
        &mut self,
        location: &mut Rect,
        arena: (i64, i64),
        gravity_force: i64,
        input: InputState,
        collidable_game_objects: &Vec<GameObject>,
    ) -> (collision: Option<usize>)
        requires
            player_in_bounds(old(self)@),
            rect_in_bounds(old(location)@),
            0 <= old(location)@.w,
            0 <= old(location)@.h,
            0 <= arena.0 <= COORD_LIMIT,
            0 <= arena.1 <= COORD_LIMIT,
            -COORD_LIMIT <= gravity_force <= COORD_LIMIT,
            forall|j: int|
                0 <= j < collidable_game_objects@.len() ==> rect_in_bounds(
                    #[trigger] collidable_game_objects@[j].location@,
                ),
        ensures
            (final(self)@, final(location)@) == player_tick(
                old(self)@,
                old(location)@,
                arena.0 as int,
                arena.1 as int,
                gravity_force as int,
                input,
            ),
            is_first_hit(
                collidable_game_objects@,
                clamp_step(
                    input_step(old(self)@, input),
                    old(location)@,
                    arena.0 as int,
                    arena.1 as int,
                ).1,
                collision,
            ),
    {
        self.handle_input(input);
        self.stay_in_arena(location, arena);
        let collision = self.get_colliding_with(collidable_game_objects, location);
        if self.affected_by_gravity {
            self.velocity_y = self.velocity_y + gravity_force;
        }
        location.x = location.x + self.velocity_x;
        location.y = location.y + self.velocity_y;
        self.apply_friction();
        collision
    }
}

/// Friction decay law: every tick removes exactly fifteen hundredths of the
/// horizontal velocity, rounded toward zero. The result keeps the sign of
/// the input and never overshoots past zero; speeds of at least seven
/// tenths strictly shrink, and a velocity that is not zero never becomes
/// exactly zero in finitely many ticks.
pub proof fn lemma_friction_decay(v: int)
    ensures
        friction_step(0) == 0,
        v > 0 ==> friction_step(v) == v - (v * 15) / 100,
        v < 0 ==> friction_step(v) == v + ((-v) * 15) / 100,
        v > 0 ==> 0 < friction_step(v) <= v,
        v < 0 ==> v <= friction_step(v) < 0,
        v >= 7 ==> friction_step(v) < v,
        v <= -7 ==> friction_step(v) > v,
{
    if v > 0 {
        lemma_friction_cut(v);
    } else if v < 0 {
        lemma_friction_cut(-v);
    }
}

/// For a positive speed `m`, the friction cut `m * 15 / 100` is at least
/// zero, below `m`, and at least one once `m` reaches seven.
proof fn lemma_friction_cut(m: int)
    requires
        m > 0,
    ensures
        0 <= (m * 15) / 100 < m,
        m >= 7 ==> (m * 15) / 100 >= 1,
{
    lemma_fundamental_div_mod(m * 15, 100);
    lemma_mod_bound(m * 15, 100);
}

/// The arena containment the clamp phase of every tick guarantees: however
/// large the velocity got and whatever keys are held, the horizontal
/// position right after the clamp lies in `[0, arena_w - w]`, as long as
/// the player fits the arena at all.
pub proof fn lemma_horizontal_containment(
    p: PlayerModel,
    r: RectModel,
    arena_w: int,
    arena_h: int,
    input: InputState,
)
    requires
        0 <= r.w <= arena_w,
    ensures
        ({
            let (p1, r1) = clamp_step(input_step(p, input), r, arena_w, arena_h);
            &&& 0 <= r1.x <= arena_w - r1.w
            &&& r1.w == r.w
        }),
{
}

/// An airborne player that is not rising settles: after finitely many idle
/// ticks under a downward gravity it rests exactly on the arena floor with
/// zero vertical velocity.
pub proof fn lemma_player_settles(
    p: PlayerModel,
    r: RectModel,
    arena_w: int,
    arena_h: int,
    gravity: int,
) -> (n: nat)
    requires
        p.airborne,
        p.vy >= 0,
        gravity >= 1,
    ensures
        ({
            let (pn, rn) = tick_idle_n(p, r, arena_w, arena_h, gravity, n);
            &&& !pn.airborne
            &&& pn.vy == 0
            &&& rn.y == arena_h - r.h
            &&& rn.w == r.w
            &&& rn.h == r.h
        }),
    decreases (if r.y + r.h > arena_h {
        0
    } else {
        arena_h + 1 - r.h - r.y
    }),
{
    let idle = no_input();
    let (p1, r1) = player_tick(p, r, arena_w, arena_h, gravity, idle);
    assert(tick_idle_n(p1, r1, arena_w, arena_h, gravity, 0) == (p1, r1));
    if r.y + r.h > arena_h {
        // The clamp of this very tick lands the player on the floor.
        1
    } else {
        // Gravity pulls further down; the floor comes closer by at least one.
        assert(p1.airborne && p1.vy == p.vy + gravity && r1.y == r.y + p.vy + gravity && r1.h
            == r.h && r1.w == r.w);
        let m = lemma_player_settles(p1, r1, arena_w, arena_h, gravity);
        assert(tick_idle_n(p, r, arena_w, arena_h, gravity, m + 1) == tick_idle_n(
            p1,
            r1,
            arena_w,
            arena_h,
            gravity,
            m,
        ));
        m + 1
    }
}

/// A player resting on the arena floor with zero vertical velocity stays
/// there: idle ticks never lift it or move it vertically.
pub proof fn lemma_settled_stays(
    p: PlayerModel,
    r: RectModel,
    arena_w: int,
    arena_h: int,
    gravity: int,
    k: nat,
)
    requires
        !p.airborne,
        p.vy == 0,
        r.y == arena_h - r.h,
    ensures
        ({
            let (pk, rk) = tick_idle_n(p, r, arena_w, arena_h, gravity, k);
            &&& !pk.airborne
            &&& pk.vy == 0
            &&& rk.y == arena_h - r.h
            &&& rk.h == r.h
        }),
    decreases k,
{
    if k > 0 {
        let (p1, r1) = player_tick(p, r, arena_w, arena_h, gravity, no_input());
        assert(!p1.airborne && p1.vy == 0 && r1.y == arena_h - r1.h && r1.h == r.h);
        lemma_settled_stays(p1, r1, arena_w, arena_h, gravity, (k - 1) as nat);
    }
}

/// Splitting a run of idle ticks: `a + b` ticks reach the same state as
/// `a` ticks followed by another `b`.
pub proof fn lemma_tick_idle_add(
    p: PlayerModel,
    r: RectModel,
    arena_w: int,
    arena_h: int,
    gravity: int,
    a: nat,
    b: nat,
)
    ensures
        ({
            let (pa, ra) = tick_idle_n(p, r, arena_w, arena_h, gravity, a);
            tick_idle_n(p, r, arena_w, arena_h, gravity, a + b) == tick_idle_n(
                pa,
                ra,
                arena_w,
                arena_h,
                gravity,
                b,
            )
        }),
    decreases a,
{
    if a > 0 {
        let (p1, r1) = player_tick(p, r, arena_w, arena_h, gravity, no_input());
        lemma_tick_idle_add(p1, r1, arena_w, arena_h, gravity, (a - 1) as nat, b);
    }
}

/// Ground contact: an airborne player that is not rising ends, from some
/// idle tick on, resting exactly at `arena_h - h` with zero vertical
/// velocity, for good.
pub proof fn lemma_player_lands(
    p: PlayerModel,
    r: RectModel,
    arena_w: int,
    arena_h: int,
    gravity: int,
) -> (n: nat)
    requires
        p.airborne,
        p.vy >= 0,
        gravity >= 1,
    ensures
        forall|m: nat|
            m >= n ==> ({
                let (pm, rm) = #[trigger] tick_idle_n(p, r, arena_w, arena_h, gravity, m);
                &&& !pm.airborne
                &&& pm.vy == 0
                &&& rm.y == arena_h - r.h
            }),
{
    let n = lemma_player_settles(p, r, arena_w, arena_h, gravity);
    let (pn, rn) = tick_idle_n(p, r, arena_w, arena_h, gravity, n);
    assert forall|m: nat| m >= n implies ({
        let (pm, rm) = #[trigger] tick_idle_n(p, r, arena_w, arena_h, gravity, m);
        &&& !pm.airborne
        &&& pm.vy == 0
        &&& rm.y == arena_h - r.h
    }) by {
        lemma_tick_idle_add(p, r, arena_w, arena_h, gravity, n, (m - n) as nat);
        lemma_settled_stays(pn, rn, arena_w, arena_h, gravity, (m - n) as nat);
    }
    n
}

} // verus!
