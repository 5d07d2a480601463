use command_gate::cooldown::{CooldownConfig, CooldownContext, CooldownTracker};

fn no_cooldowns() -> CooldownConfig {
    CooldownConfig { global: None, user: None, guild: None, channel: None }
}

#[test]
fn fresh_tracker_has_nothing_outstanding() {
    let config = CooldownConfig { global: Some(1000), user: Some(2000), guild: Some(3000), channel: Some(4000) };
    let t = CooldownTracker::new(config);
    assert_eq!(t.config(), config);
    let ctx = CooldownContext { user_id: 1, guild_id: Some(2), channel_id: 3 };
    assert_eq!(t.remaining_cooldown(&ctx, 0), None);
}

#[test]
fn remaining_is_the_longest_wait() {
    let config = CooldownConfig { global: Some(1000), user: Some(5000), guild: None, channel: Some(3000) };
    let mut t = CooldownTracker::new(config);
    let ctx = CooldownContext { user_id: 1, guild_id: Some(2), channel_id: 3 };
    t.start_cooldown(&ctx, 10_000);
    assert_eq!(t.remaining_cooldown(&ctx, 10_500), Some(4500));
    // another user in the same channel waits for the channel and the global cooldowns
    let other = CooldownContext { user_id: 9, guild_id: Some(2), channel_id: 3 };
    assert_eq!(t.remaining_cooldown(&other, 10_500), Some(2500));
    // another user elsewhere waits only for the global one
    let elsewhere = CooldownContext { user_id: 9, guild_id: Some(2), channel_id: 4 };
    assert_eq!(t.remaining_cooldown(&elsewhere, 10_500), Some(500));
    assert_eq!(t.remaining_cooldown(&elsewhere, 11_000), None);
    assert_eq!(t.remaining_cooldown(&ctx, 15_000), None);
}

#[test]
fn guild_cooldown_applies_only_in_guilds() {
    let config = CooldownConfig { guild: Some(7000), ..no_cooldowns() };
    let mut t = CooldownTracker::new(config);
    let in_guild = CooldownContext { user_id: 1, guild_id: Some(2), channel_id: 3 };
    t.start_cooldown(&in_guild, 0);
    let same_guild = CooldownContext { user_id: 5, guild_id: Some(2), channel_id: 6 };
    assert_eq!(t.remaining_cooldown(&same_guild, 2000), Some(5000));
    let dm = CooldownContext { user_id: 1, guild_id: None, channel_id: 3 };
    assert_eq!(t.remaining_cooldown(&dm, 2000), None);
}

#[test]
fn unconfigured_granularities_never_wait() {
    let mut t = CooldownTracker::new(no_cooldowns());
    let ctx = CooldownContext { user_id: 1, guild_id: None, channel_id: 3 };
    t.start_cooldown(&ctx, 100);
    assert_eq!(t.remaining_cooldown(&ctx, 100), None);
}

#[test]
fn clock_before_last_use_counts_as_no_time_elapsed() {
    let config = CooldownConfig { user: Some(1000), ..no_cooldowns() };
    let mut t = CooldownTracker::new(config);
    let ctx = CooldownContext { user_id: 1, guild_id: None, channel_id: 3 };
    t.start_cooldown(&ctx, 5000);
    assert_eq!(t.remaining_cooldown(&ctx, 4000), Some(1000));
}
