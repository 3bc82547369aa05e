use chat_arena::chatter::Chatter;
use chat_arena::command::{Command, CommandType};

const COLUMN_ERROR: &str = "I couldn't tell what column to drop into";

fn chatter(name: &str) -> Chatter {
    Chatter { username: String::from(name) }
}

#[test]
fn ignores_lines_without_marker() {
    for msg in ["hello", "fire 3", "", " #fire", "!heart 2", "sword"] {
        for name in ["alice", "bob", ""] {
            let r = Command::new(msg, chatter(name)).unwrap();
            assert!(r.is_none());
        }
    }
}

#[test]
fn parses_each_command_with_numeric_column() {
    let cases = [
        ("#fire 3", CommandType::Fire, 3u8),
        ("#sword 0", CommandType::Sword, 0u8),
        ("#snake 255", CommandType::Snake, 255u8),
        ("#heart 9", CommandType::Heart, 9u8),
    ];
    for (msg, ty, id) in cases {
        let c = Command::new(msg, chatter("alice")).unwrap().unwrap();
        assert_eq!(c.command_type, ty);
        assert_eq!(c.id, id);
        assert_eq!(c.chatter.username, "alice");
    }
}

#[test]
fn accepts_leading_zeros_and_plus() {
    let c = Command::new("#fire 007", chatter("a")).unwrap().unwrap();
    assert_eq!(c.id, 7);
    let c = Command::new("#heart +9", chatter("a")).unwrap().unwrap();
    assert_eq!(c.id, 9);
}

#[test]
fn extra_tokens_after_column_are_ignored() {
    let c = Command::new("#snake 4 please", chatter("a")).unwrap().unwrap();
    assert_eq!(c.command_type, CommandType::Snake);
    assert_eq!(c.id, 4);
}

#[test]
fn missing_column_draws_id_in_range() {
    for _ in 0..2000 {
        let c = Command::new("#fire", chatter("a")).unwrap().unwrap();
        assert!(c.id < 10);
    }
}

#[test]
fn missing_column_covers_every_column() {
    let mut seen = [false; 10];
    for _ in 0..5000 {
        let c = Command::new("#sword", chatter("a")).unwrap().unwrap();
        seen[c.id as usize] = true;
    }
    assert!(seen.iter().all(|&s| s));
}

#[test]
fn bad_column_is_reported() {
    for msg in [
        "#fire abc",
        "#sword 1x",
        "#snake -1",
        "#heart 3.5",
        "#fire 256",
        "#fire ",
        "#fire  3",
        "#fire +",
        "#fire ++5",
    ] {
        let e = Command::new(msg, chatter("a")).unwrap_err();
        assert_eq!(e, COLUMN_ERROR);
    }
}

#[test]
fn unknown_commands_are_ignored() {
    for msg in ["#blah", "#", "#FIRE 3", "#fires 2", "#fire3"] {
        let r = Command::new(msg, chatter("a")).unwrap();
        assert!(r.is_none());
    }
}

#[test]
fn unknown_command_with_bad_column_is_still_an_error() {
    let e = Command::new("#blah xyz", chatter("a")).unwrap_err();
    assert_eq!(e, COLUMN_ERROR);
}

#[test]
fn fallback_id_is_used_only_without_column() {
    let c = Command::new_with_fallback("#heart", chatter("a"), 4).unwrap().unwrap();
    assert_eq!(c.id, 4);
    let c = Command::new_with_fallback("#heart 8", chatter("a"), 4).unwrap().unwrap();
    assert_eq!(c.id, 8);
}
