use chat_arena::life_system::{
    FireLifeSystem, HeartLifeSystem, LifeSystem, SnakeLifeSystem, SwordLifeSystem,
};

#[test]
fn life_systems_start_at_full_lifetime() {
    assert_eq!(FireLifeSystem::new().remaining, 240);
    assert_eq!(SnakeLifeSystem::new().remaining, 240);
    assert_eq!(SwordLifeSystem::new().remaining, 1);
    assert_eq!(HeartLifeSystem::new().remaining, 1);
}

#[test]
fn exhausting_lifetime_is_the_removal_trigger() {
    let mut life = LifeSystem::Sword(SwordLifeSystem::new());
    assert!(life.is_alive());
    life.expend();
    assert!(!life.is_alive());
    // An exhausted system stays exhausted.
    life.expend();
    assert!(!life.is_alive());
}

#[test]
fn timed_life_counts_frames_down() {
    let mut life = LifeSystem::Fire(FireLifeSystem::new());
    for _ in 0..239 {
        life.expend();
        assert!(life.is_alive());
    }
    life.expend();
    assert!(!life.is_alive());
}
