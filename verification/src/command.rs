use crate::chatter::Chatter;
use crate::draw_system::{scaled, DrawSystem};
use crate::game_object::{GameObject, GameObjectType};
use crate::life_system::{
    FireLifeSystem, HeartLifeSystem, LifeSystem, SnakeLifeSystem, SwordLifeSystem, FIRE_LIFETIME,
    HEART_LIFETIME, SNAKE_LIFETIME, SWORD_LIFETIME,
};
use crate::physics::{
    FirePhysics, HeartPhysics, PhysicsSystem, SnakePhysics, SwordPhysics, FIRE_FALL_SPEED,
    HEART_FALL_SPEED, SNAKE_FALL_SPEED, SWORD_FALL_SPEED,
};
use crate::rect::{RectModel, COORD_LIMIT};
use crate::sprite::Sprite;
use vstd::prelude::*;

verus! {

/// Side of the square an entity falls back to when its draw strategy cannot
/// report a size, in tenths of a world unit.
pub const FALLBACK_SIZE: i64 = 500;

/// The four chat commands a viewer can spawn something with.
#[derive(Clone, Copy, PartialEq, Eq, Structural, Debug)]
pub enum CommandType {
    Fire,
    Sword,
    Snake,
    Heart,
}

/// A recognized chat line: what to spawn, into which column, and who asked.
#[derive(Debug)]
pub struct Command {
    pub command_type: CommandType,
    pub id: u8,
    pub chatter: Chatter,
}

/// What parsing one chat line amounts to: nothing (silently ignored), a
/// spawn request, or a complaint about the column token.
pub ghost enum ParseOutcome {
    NoCommand,
    Spawn { command_type: CommandType, id: u8 },
    BadColumn,
}

/// Index of the first space in `s`, or `s.len()` when there is none.
pub open spec fn first_space(s: Seq<char>) -> int
    decreases s.len(),
{
    if s.len() == 0 {
        0
    } else if s[0] == ' ' {
        0
    } else {
        1 + first_space(s.subrange(1, s.len() as int))
    }
}

/// An ASCII decimal digit.
pub open spec fn is_digit(c: char) -> bool {
    48 <= c as u32 <= 57
}

pub open spec fn digit_val(c: char) -> int {
    c as u32 - 48
}

pub open spec fn all_digits(s: Seq<char>) -> bool {
    forall|j: int| 0 <= j < s.len() ==> is_digit(#[trigger] s[j])
}

/// Numeric value of a sequence of decimal digits, most significant first.
pub open spec fn dec_value(s: Seq<char>) -> int
    decreases s.len(),
{
    if s.len() == 0 {
        0
    } else {
        dec_value(s.drop_last()) * 10 + digit_val(s.last())
    }
}

/// The column id a token denotes: an optional leading `+`, then at least
/// one decimal digit, with a value that fits eight bits — exactly the
/// tokens an unsigned 8-bit decimal parse accepts. Anything else is `None`.
pub open spec fn digits_value(body: Seq<char>) -> Option<u8> {
    if body.len() >= 1 && all_digits(body) && dec_value(body) <= 255 {
        Some(dec_value(body) as u8)
    } else {
        None
    }
}

pub open spec fn column_token_value(t: Seq<char>) -> Option<u8> {
    if t.len() >= 1 && t[0] == '+' {
        digits_value(t.subrange(1, t.len() as int))
    } else {
        digits_value(t)
    }
}

/// The command a first token names, if any; matching is exact and
/// case-sensitive.
pub open spec fn command_name_of(t: Seq<char>) -> Option<CommandType> {
    if t == "#fire"@ {
        Some(CommandType::Fire)
    } else if t == "#sword"@ {
        Some(CommandType::Sword)
    } else if t == "#snake"@ {
        Some(CommandType::Snake)
    } else if t == "#heart"@ {
        Some(CommandType::Heart)
    } else {
        None
    }
}

/// The fixed complaint about an unreadable column token.
pub open spec fn column_error() -> Seq<char> {
    "I couldn't tell what column to drop into"@
}

/// The message carries a `#` marker and a second, space-separated token.
pub open spec fn has_column_token(msg: Seq<char>) -> bool {
    msg.len() > 0 && msg[0] == '#' && first_space(msg) < msg.len()
}

/// The whole command grammar. A line not starting with `#` is no command.
/// Otherwise the line splits on single spaces; the second token, if
/// present, must be a column id and is complained about when it is not —
/// even when the first token names no known command. The first token then
/// selects the command by exact match, any other name being silently
/// ignored; with no second token the caller's fallback id is used.
pub open spec fn parse_spec(msg: Seq<char>, fallback_id: u8) -> ParseOutcome {
    if msg.len() == 0 || msg[0] != '#' {
        ParseOutcome::NoCommand
    } else {
        let name = msg.subrange(0, first_space(msg));
        if first_space(msg) == msg.len() {
            match command_name_of(name) {
                Some(ct) => ParseOutcome::Spawn { command_type: ct, id: fallback_id },
                None => ParseOutcome::NoCommand,
            }
        } else {
            let rest = msg.subrange(first_space(msg) + 1, msg.len() as int);
            let token = rest.subrange(0, first_space(rest));
            match column_token_value(token) {
                None => ParseOutcome::BadColumn,
                Some(v) => match command_name_of(name) {
                    Some(ct) => ParseOutcome::Spawn { command_type: ct, id: v },
                    None => ParseOutcome::NoCommand,
                },
            }
        }
    }
}

/// How a parse result realizes an outcome: the outcome's data must appear
/// in the returned command, together with the chatter handed in.
pub open spec fn outcome_matches(
    o: ParseOutcome,
    r: Result<Option<Command>, &'static str>,
    chatter_name: Seq<char>,
) -> bool {
    match o {
        ParseOutcome::NoCommand => r matches Ok(None),
        ParseOutcome::Spawn { command_type, id } => r matches Ok(Some(c)) && c.command_type
            == command_type && c.id == id && c.chatter@ == chatter_name,
        ParseOutcome::BadColumn => r matches Err(e) && e@ == column_error(),
    }
}

pub proof fn lemma_first_space(s: Seq<char>)
    ensures
        0 <= first_space(s) <= s.len(),
        first_space(s) < s.len() ==> s[first_space(s)] == ' ',
        forall|j: int| 0 <= j < first_space(s) ==> s[j] != ' ',
    decreases s.len(),
{
    if s.len() == 0 {
    } else if s[0] == ' ' {
    } else {
        let t = s.subrange(1, s.len() as int);
        lemma_first_space(t);
        assert forall|j: int| 0 <= j < first_space(s) implies s[j] != ' ' by {
            if j > 0 {
                assert(t[j - 1] == s[j]);
            }
        }
        if first_space(s) < s.len() {
            assert(s[first_space(s)] == t[first_space(s) - 1]);
        }
    }
}

/// `first_space` is pinned down by its characteristic facts.
proof fn lemma_first_space_unique(s: Seq<char>, i: int)
    requires
        0 <= i <= s.len(),
        i < s.len() ==> s[i] == ' ',
        forall|j: int| 0 <= j < i ==> s[j] != ' ',
    ensures
        first_space(s) == i,
{
    lemma_first_space(s);
    let fs = first_space(s);
    if fs < i {
        assert(s[fs] == ' ');
        assert(false);
    }
    if i < fs {
        assert(s[i] != ' ');
        assert(false);
    }
}

proof fn lemma_dec_value_nonneg(s: Seq<char>)
    requires
        all_digits(s),
    ensures
        dec_value(s) >= 0,
    decreases s.len(),
{
    if s.len() > 0 {
        let a = s.drop_last();
        assert forall|j: int| 0 <= j < a.len() implies is_digit(a[j]) by {
            assert(a[j] == s[j]);
        }
        lemma_dec_value_nonneg(a);
        assert(is_digit(s.last()));
    }
}

/// Reading more digits never shrinks the value.
proof fn lemma_dec_value_prefix(s: Seq<char>, k: int)
    requires
        all_digits(s),
        0 <= k <= s.len(),
    ensures
        dec_value(s.subrange(0, k)) <= dec_value(s),
    decreases s.len() - k,
{
    if k == s.len() {
        assert(s.subrange(0, k) =~= s);
    } else {
        let a = s.subrange(0, k);
        let b = s.subrange(0, k + 1);
        assert(b.drop_last() =~= a);
        assert(b.last() == s[k]);
        assert forall|j: int| 0 <= j < a.len() implies is_digit(a[j]) by {
            assert(a[j] == s[j]);
        }
        lemma_dec_value_nonneg(a);
        assert(is_digit(s[k]));
        assert(dec_value(b) == dec_value(a) * 10 + digit_val(s[k]));
        lemma_dec_value_prefix(s, k + 1);
    }
}

/// Relies on `rand::random_range`: the value drawn from `0..10` lies in
/// that range. Which value comes back is chance, so nothing more is
/// assumed of it.
#[verifier::external_body]
fn random_column() -> (r: u8)
    ensures
        r < 10,
{
    rand::random_range(0u8..10u8)
}

/// First index at or after `start` holding a space, or the end of the
/// message when there is none.
fn find_space(message: &str, start: usize) -> (r: usize)
    requires
        start as nat <= message@.len(),
    ensures
        start <= r,
        r as nat <= message@.len(),
        (r as nat) < message@.len() ==> message@[r as int] == ' ',
        forall|j: int| start as int <= j < r as int ==> message@[j] != ' ',
{
    let len = message.unicode_len();
    let mut i = start;
    while i < len && message.get_char(i) != ' '
        invariant
            start <= i,
            i as nat <= message@.len(),
            len as nat == message@.len(),
            forall|j: int| start as int <= j < i as int ==> message@[j] != ' ',
        decreases len - i,
    {
        i = i + 1;
    }
    i
}

/// The first `token_end` characters of the message are exactly `pat`.
fn token_matches(message: &str, token_end: usize, pat: &str) -> (r: bool)
    requires
        token_end as nat <= message@.len(),
    ensures
        r == (message@.subrange(0, token_end as int) == pat@),
{
    let plen = pat.unicode_len();
    if plen != token_end {
        return false;
    }
    let mut j: usize = 0;
    while j < token_end
        invariant
            j <= token_end,
            token_end as nat <= message@.len(),
            pat@.len() == token_end as nat,
            forall|k: int| 0 <= k < j as int ==> message@[k] == pat@[k],
        decreases token_end - j,
    {
        if message.get_char(j) != pat.get_char(j) {
            proof {
                assert(message@.subrange(0, token_end as int)[j as int] != pat@[j as int]);
            }
            return false;
        }
        j = j + 1;
    }
    proof {
        assert(message@.subrange(0, token_end as int) =~= pat@);
    }
    true
}

/// Reads the column id in `message[start..end]`, by the same rules as an
/// unsigned 8-bit decimal parse.
fn parse_column(message: &str, start: usize, end: usize) -> (r: Option<u8>)
    requires
        start <= end,
        end as nat <= message@.len(),
    ensures
        r == column_token_value(message@.subrange(start as int, end as int)),
{
    let ghost t = message@.subrange(start as int, end as int);
    let mut idx = start;
    if idx < end && message.get_char(idx) == '+' {
        idx = idx + 1;
    }
    let ghost bs = idx as int;
    let ghost body = message@.subrange(bs, end as int);
    proof {
        if t.len() >= 1 && t[0] == '+' {
            assert(t[0] == message@[start as int]);
            assert(body =~= t.subrange(1, t.len() as int));
        } else {
            assert(body =~= t);
        }
    }
    if idx == end {
        return None;
    }
    let mut val: u32 = 0;
    while idx < end
        invariant
            start as int <= bs <= idx as int <= end as int,
            end as nat <= message@.len(),
            bs < end as int,
            val <= 255,
            t == message@.subrange(start as int, end as int),
            body == message@.subrange(bs, end as int),
            column_token_value(t) == digits_value(body),
            all_digits(message@.subrange(bs, idx as int)),
            val as int == dec_value(message@.subrange(bs, idx as int)),
        decreases end - idx,
    {
        let c = message.get_char(idx);
        let cv = c as u32;
        if cv < 48 || cv > 57 {
            proof {
                assert(body[idx as int - bs] == message@[idx as int]);
                assert(!is_digit(body[idx as int - bs]));
            }
            return None;
        }
        let candidate = val * 10 + (cv - 48);
        proof {
            let pre = message@.subrange(bs, idx as int);
            let nxt = message@.subrange(bs, idx as int + 1);
            assert(nxt.drop_last() =~= pre);
            assert(nxt.last() == message@[idx as int]);
            assert forall|j: int| 0 <= j < nxt.len() implies is_digit(nxt[j]) by {
                if j < nxt.len() - 1 {
                    assert(nxt[j] == pre[j]);
                } else {
                    assert(nxt[j] == nxt.last());
                }
            }
            assert(dec_value(nxt) == dec_value(pre) * 10 + digit_val(message@[idx as int]));
            assert(candidate as int == dec_value(nxt));
        }
        if candidate > 255 {
            proof {
                let nxt = message@.subrange(bs, idx as int + 1);
                if all_digits(body) {
                    assert(nxt =~= body.subrange(0, idx as int + 1 - bs));
                    lemma_dec_value_prefix(body, idx as int + 1 - bs);
                    assert(dec_value(body) > 255);
                }
            }
            return None;
        }
        val = candidate;
        idx = idx + 1;
    }
    proof {
        assert(message@.subrange(bs, idx as int) == body);
    }
    Some(val as u8)
}

impl Command {
    /// Parses one chat line, drawing the column at random when the line
    /// names a command but no column. Everything but that draw is pinned
    /// down by [`parse_spec`]; the draw itself always lands in `0..10`.
    pub fn new(message: &str, chatter: Chatter) -> (r: Result<Option<Command>, &'static str>)
        ensures
            exists|f: u8| f < 10 && outcome_matches(parse_spec(message@, f), r, chatter@),
            message@.len() == 0 || message@[0] != '#' ==> r matches Ok(None),
            has_column_token(message@) ==> outcome_matches(parse_spec(message@, 0), r, chatter@),
            !has_column_token(message@) ==> (r matches Ok(Some(c)) ==> c.id < 10),
    {
        let fallback_id = random_column();
        let ghost chatter_name = chatter@;
        let r = Self::new_with_fallback(message, chatter, fallback_id);
        proof {
            lemma_first_space(message@);
            assert(outcome_matches(parse_spec(message@, fallback_id), r, chatter_name));
        }
        r
    }

    /// The deterministic heart of [`Command::new`]: parses one chat line,
    /// using the given fallback id when the line carries no column token.
    pub fn new_with_fallback(message: &str, chatter: Chatter, fallback_id: u8) -> (r: Result<
        Option<Command>,
        &'static str,
    >)
        ensures
            outcome_matches(parse_spec(message@, fallback_id), r, chatter@),
    {
        let len = message.unicode_len();
        if len == 0 || message.get_char(0) != '#' {
            return Ok(None);
        }
        let e1 = find_space(message, 0);
        proof {
            lemma_first_space_unique(message@, e1 as int);
        }
        let id: u8;
        if e1 == len {
            id = fallback_id;
        } else {
            let start2 = e1 + 1;
            let e2 = find_space(message, start2);
            let ghost rest = message@.subrange(start2 as int, len as int);
            proof {
                assert forall|j: int| 0 <= j < e2 as int - start2 as int implies rest[j]
                    != ' ' by {
                    assert(rest[j] == message@[start2 as int + j]);
                }
                if (e2 as int - start2 as int) < rest.len() {
                    assert(rest[e2 as int - start2 as int] == message@[e2 as int]);
                }
                lemma_first_space_unique(rest, e2 as int - start2 as int);
                assert(rest.subrange(0, e2 as int - start2 as int) =~= message@.subrange(
                    start2 as int,
                    e2 as int,
                ));
            }
            match parse_column(message, start2, e2) {
                Some(v) => {
                    id = v;
                },
                None => {
                    return Err("I couldn't tell what column to drop into");
                },
            }
        }
        if token_matches(message, e1, "#fire") {
            Ok(Some(Command { command_type: CommandType::Fire, id, chatter }))
        } else if token_matches(message, e1, "#sword") {
            Ok(Some(Command { command_type: CommandType::Sword, id, chatter }))
        } else if token_matches(message, e1, "#snake") {
            Ok(Some(Command { command_type: CommandType::Snake, id, chatter }))
        } else if token_matches(message, e1, "#heart") {
            Ok(Some(Command { command_type: CommandType::Heart, id, chatter }))
        } else {
            Ok(None)
        }
    }

    /// Display scale of the spawned entity, in tenths.
    pub fn scale_tenths(&self) -> (s: u8)
        ensures
            s == scale_tenths_for(self.command_type),
    {
        match self.command_type {
            CommandType::Fire => 20,
            CommandType::Sword => 30,
            CommandType::Snake => 30,
            CommandType::Heart => 15,
        }
    }

    /// Which texture the rendering backend should load for this command,
    /// and how its frames are laid out.
    pub fn sprite_source(&self) -> (r: SpriteSource)
        ensures
            match self.command_type {
                CommandType::Fire => r.path@ == "/LargeFlame.png"@ && r.frames == 4 && r.rows
                    == 1,
                CommandType::Sword => r.path@ == "/item1BIT_sword.png"@ && r.frames == 1 && r.rows
                    == 1,
                CommandType::Snake => r.path@ == "/snake.png"@ && r.frames == 4 && r.rows == 1,
                CommandType::Heart => r.path@ == "/heart.png"@ && r.frames == 1 && r.rows == 1,
            },
    {
        match self.command_type {
            CommandType::Fire => SpriteSource { path: "/LargeFlame.png", frames: 4, rows: 1 },
            CommandType::Sword => SpriteSource { path: "/item1BIT_sword.png", frames: 1, rows: 1 },
            CommandType::Snake => SpriteSource { path: "/snake.png", frames: 4, rows: 1 },
            CommandType::Heart => SpriteSource { path: "/heart.png", frames: 1, rows: 1 },
        }
    }

    /// A fresh movement strategy of the kind this command spawns.
    pub fn get_physics(&self) -> (r: Option<PhysicsSystem>)
        ensures
            r == Some(physics_for(self.command_type)),
    {
        match self.command_type {
            CommandType::Fire => Some(PhysicsSystem::Fire(FirePhysics::new())),
            CommandType::Sword => Some(PhysicsSystem::Sword(SwordPhysics::new())),
            CommandType::Snake => Some(PhysicsSystem::Snake(SnakePhysics::new())),
            CommandType::Heart => Some(PhysicsSystem::Heart(HeartPhysics::new())),
        }
    }

    /// A fresh survival strategy of the kind this command spawns, at full
    /// lifetime.
    pub fn get_life_system(&self) -> (r: Option<LifeSystem>)
        ensures
            r == Some(life_for(self.command_type)),
    {
        match self.command_type {
            CommandType::Fire => Some(LifeSystem::Fire(FireLifeSystem::new())),
            CommandType::Sword => Some(LifeSystem::Sword(SwordLifeSystem::new())),
            CommandType::Snake => Some(LifeSystem::Snake(SnakeLifeSystem::new())),
            CommandType::Heart => Some(LifeSystem::Heart(HeartLifeSystem::new())),
        }
    }

    /// Hearts are pickups; everything else spawned by chat is an enemy.
    pub fn get_game_object_type(&self) -> (r: GameObjectType)
        ensures
            r == object_type_for(self.command_type),
    {
        match self.command_type {
            CommandType::Heart => GameObjectType::Heart,
            _ => GameObjectType::Enemy,
        }
    }

    /// Builds the entity this command asks for: a draw strategy around the
    /// loaded sprite and the command's scale, the rectangle sized from the
    /// strategy's size query (square fallback when there is none) and
    /// centered on the drop point, plus fresh physics and life strategies
    /// and the command's own chatter.
    pub fn handle(&self, drop_x: i64, drop_y: i64, sprite: Option<Sprite>) -> (g: GameObject)
        requires
            -COORD_LIMIT <= drop_x <= COORD_LIMIT,
            -COORD_LIMIT <= drop_y <= COORD_LIMIT,
        ensures
            ({
                let (w, h) = object_size_for(self.command_type, sprite);
                g.location@ == (RectModel {
                    x: drop_x as int - w / 2,
                    y: drop_y as int - h / 2,
                    w,
                    h,
                })
            }),
            g.location@.x + g.location@.w / 2 == drop_x as int,
            g.location@.y + g.location@.h / 2 == drop_y as int,
            g.object_type == object_type_for(self.command_type),
            g.is_solid,
            g.chatter matches Some(c) && c@ == self.chatter@,
            g.physics_system == Some(physics_for(self.command_type)),
            g.life_system == Some(life_for(self.command_type)),
            g.draw_system matches Some(d) && d.sprite == sprite && d.scale_tenths
                == scale_tenths_for(self.command_type),
    {
        let scale = self.scale_tenths();
        let draw_system = DrawSystem::new(sprite, scale);
        let size: (i64, i64) = match draw_system.get_size() {
            Some(wh) => wh,
            None => (FALLBACK_SIZE, FALLBACK_SIZE),
        };
        let physics_system = self.get_physics();
        let half_w = (size.0 as u64 / 2) as i64;
        let half_h = (size.1 as u64 / 2) as i64;
        GameObject::new(
            drop_x - half_w,
            drop_y - half_h,
            Some(draw_system),
            size.0,
            size.1,
            physics_system,
            true,
            Some(self.chatter.clone()),
            self.get_game_object_type(),
            self.get_life_system(),
        )
    }
}

/// Asset the rendering backend loads for a command: a path and the frame
/// grid of the texture.
pub struct SpriteSource {
    pub path: &'static str,
    pub frames: u32,
    pub rows: u32,
}

/// The factory table's scale column, in tenths.
pub open spec fn scale_tenths_for(ct: CommandType) -> u8 {
    match ct {
        CommandType::Fire => 20,
        CommandType::Sword => 30,
        CommandType::Snake => 30,
        CommandType::Heart => 15,
    }
}

/// The factory table's physics column: each command type gets a fresh
/// strategy of its own kind.
pub open spec fn physics_for(ct: CommandType) -> PhysicsSystem {
    match ct {
        CommandType::Fire => PhysicsSystem::Fire(FirePhysics { fall_speed: FIRE_FALL_SPEED }),
        CommandType::Sword => PhysicsSystem::Sword(SwordPhysics { fall_speed: SWORD_FALL_SPEED }),
        CommandType::Snake => PhysicsSystem::Snake(SnakePhysics { fall_speed: SNAKE_FALL_SPEED }),
        CommandType::Heart => PhysicsSystem::Heart(HeartPhysics { fall_speed: HEART_FALL_SPEED }),
    }
}

/// The factory table's life column: a fresh strategy at full lifetime.
pub open spec fn life_for(ct: CommandType) -> LifeSystem {
    match ct {
        CommandType::Fire => LifeSystem::Fire(FireLifeSystem { remaining: FIRE_LIFETIME }),
        CommandType::Sword => LifeSystem::Sword(SwordLifeSystem { remaining: SWORD_LIFETIME }),
        CommandType::Snake => LifeSystem::Snake(SnakeLifeSystem { remaining: SNAKE_LIFETIME }),
        CommandType::Heart => LifeSystem::Heart(HeartLifeSystem { remaining: HEART_LIFETIME }),
    }
}

/// Hearts spawn as pickups, the other three as enemies.
pub open spec fn object_type_for(ct: CommandType) -> GameObjectType {
    if ct is Heart {
        GameObjectType::Heart
    } else {
        GameObjectType::Enemy
    }
}

/// Size of the entity a command spawns: the draw strategy's scaled sprite
/// size, or the square fallback without a sprite.
pub open spec fn object_size_for(ct: CommandType, sprite: Option<Sprite>) -> (int, int) {
    match sprite {
        Some(s) => (scaled(s.width, scale_tenths_for(ct)), scaled(s.height, scale_tenths_for(ct))),
        None => (FALLBACK_SIZE as int, FALLBACK_SIZE as int),
    }
}

} // verus!
