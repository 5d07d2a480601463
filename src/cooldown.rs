use vstd::prelude::*;
use std::collections::HashMap;

verus! {

broadcast use vstd::std_specs::hash::group_hash_axioms;

/// The cooldown durations, in milliseconds, of each granularity; `None` leaves it untracked.
#[derive(Clone, Copy, Debug, PartialEq, Eq, Structural)]
pub struct CooldownConfig {
    pub global: Option<u64>,
    pub user: Option<u64>,
    pub guild: Option<u64>,
    pub channel: Option<u64>,
}

/// The keys of one invocation that cooldowns are tracked by.
#[derive(Clone, Copy, Debug, PartialEq, Eq, Structural)]
pub struct CooldownContext {
    pub user_id: u64,
    /// `None` in a direct message.
    pub guild_id: Option<u64>,
    pub channel_id: u64,
}

/// The abstract state of a tracker: its durations and the time, in milliseconds, of the last
/// recorded invocation for each key.
pub struct TrackerView {
    pub config: CooldownConfig,
    pub global: Option<u64>,
    pub users: Map<u64, u64>,
    pub guilds: Map<u64, u64>,
    pub channels: Map<u64, u64>,
}

/// The time of the last recorded invocation under per-key cooldowns, by key.
#[derive(Clone, Debug, PartialEq, Eq)]
pub struct CooldownTracker {
    config: CooldownConfig,
    global_last: Option<u64>,
    user_last: HashMap<u64, u64>,
    guild_last: HashMap<u64, u64>,
    channel_last: HashMap<u64, u64>,
}

impl View for CooldownTracker {
    type V = TrackerView;

    closed spec fn view(&self) -> TrackerView {
        TrackerView {
            config: self.config,
            global: self.global_last,
            users: self.user_last@,
            guilds: self.guild_last@,
            channels: self.channel_last@,
        }
    }
}

/// The last recorded time of `k` in `m`, if any.
pub open spec fn last_of(m: Map<u64, u64>, k: u64) -> Option<u64> {
    if m.contains_key(k) {
        Some(m[k])
    } else {
        None
    }
}

/// How long is left, at `now`, of a cooldown of `duration` begun at `last`; 0 when none is
/// running. A `now` before `last` counts as no time elapsed.
pub open spec fn wait_left(last: Option<u64>, duration: Option<u64>, now: u64) -> nat {
    match (last, duration) {
        (Some(l), Some(d)) => {
            let elapsed: int = if now >= l { now - l } else { 0 };
            if elapsed < d { (d - elapsed) as nat } else { 0 }
        },
        _ => 0,
    }
}

/// The larger of two naturals.
pub open spec fn max_nat(a: nat, b: nat) -> nat {
    if a >= b { a } else { b }
}

/// The longest wait over every granularity that applies to `ctx`.
pub open spec fn longest_wait(v: TrackerView, ctx: CooldownContext, now: u64) -> nat {
    let guild_wait = match ctx.guild_id {
        Some(g) => wait_left(last_of(v.guilds, g), v.config.guild, now),
        None => 0,
    };
    max_nat(
        max_nat(
            wait_left(v.global, v.config.global, now),
            wait_left(last_of(v.users, ctx.user_id), v.config.user, now),
        ),
        max_nat(guild_wait, wait_left(last_of(v.channels, ctx.channel_id), v.config.channel, now)),
    )
}

/// The remaining cooldown of `ctx` at `now`: `None` when nothing is outstanding.
pub open spec fn spec_remaining(v: TrackerView, ctx: CooldownContext, now: u64) -> Option<u64> {
    if longest_wait(v, ctx, now) > 0 {
        Some(longest_wait(v, ctx, now) as u64)
    } else {
        None
    }
}

/// The state after recording an invocation of `ctx` at `now` under every granularity that
/// applies to it.
pub open spec fn spec_started(v: TrackerView, ctx: CooldownContext, now: u64) -> TrackerView {
    TrackerView {
        config: v.config,
        global: Some(now),
        users: v.users.insert(ctx.user_id, now),
        guilds: match ctx.guild_id {
            Some(g) => v.guilds.insert(g, now),
            None => v.guilds,
        },
        channels: v.channels.insert(ctx.channel_id, now),
    }
}

fn wait_of(last: Option<u64>, duration: Option<u64>, now: u64) -> (r: u64)
    ensures
        r == wait_left(last, duration, now),
{
    match (last, duration) {
        (Some(l), Some(d)) => {
            let elapsed: u64 = if now >= l { now - l } else { 0 };
            if elapsed < d { d - elapsed } else { 0 }
        },
        _ => 0,
    }
}

fn lookup(m: &HashMap<u64, u64>, k: u64) -> (r: Option<u64>)
    ensures
        r == last_of(m@, k),
{
    match m.get(&k) {
        Some(v) => Some(*v),
        None => None,
    }
}

impl CooldownTracker {
    /// A tracker with durations `config` and no invocation recorded.
    pub fn new(config: CooldownConfig) -> (r: CooldownTracker)
        ensures
            r@.config == config,
            r@.global.is_none(),
            r@.users == Map::<u64, u64>::empty(),
            r@.guilds == Map::<u64, u64>::empty(),
            r@.channels == Map::<u64, u64>::empty(),
    {
        CooldownTracker {
            config,
            global_last: None,
            user_last: HashMap::new(),
            guild_last: HashMap::new(),
            channel_last: HashMap::new(),
        }
    }

    /// The durations the tracker was made with.
    pub fn config(&self) -> (r: CooldownConfig)
        ensures
            r == self@.config,
    {
        self.config
    }

    /// The longest wait left, at `now`, over every granularity that applies to `ctx`; `None`
    /// when no cooldown is running.
    pub fn remaining_cooldown(&self, ctx: &CooldownContext, now: u64) -> (r: Option<u64>)
        ensures
            r == spec_remaining(self@, *ctx, now),
    {
        let global = wait_of(self.global_last, self.config.global, now);
        let user = wait_of(lookup(&self.user_last, ctx.user_id), self.config.user, now);
        let guild = match ctx.guild_id {
            Some(g) => wait_of(lookup(&self.guild_last, g), self.config.guild, now),
            None => 0,
        };
        let channel = wait_of(lookup(&self.channel_last, ctx.channel_id), self.config.channel, now);
        let a = if global >= user { global } else { user };
        let b = if guild >= channel { guild } else { channel };
        let longest = if a >= b { a } else { b };
        if longest > 0 {
            Some(longest)
        } else {
            None
        }
    }

    /// Records an invocation of `ctx` at `now` under every granularity that applies to it.
    pub fn start_cooldown(&mut self, ctx: &CooldownContext, now: u64)
        ensures
            final(self)@ == spec_started(old(self)@, *ctx, now),
    {
        self.global_last = Some(now);
        self.user_last.insert(ctx.user_id, now);
        if let Some(g) = ctx.guild_id {
            self.guild_last.insert(g, now);
        }
        self.channel_last.insert(ctx.channel_id, now);
    }
}

/// Under a per-user window of `window` milliseconds alone, once an invocation of a user is
/// recorded at `at`, that user waits until `at + window` and no longer: at any `now` from
/// `at` on, the remaining cooldown is what is left of the window, or none once it has passed.
pub proof fn lemma_user_window(
    v: TrackerView,
    ctx: CooldownContext,
    next: CooldownContext,
    window: u64,
    at: u64,
    now: u64,
)
    requires
        v.config == (CooldownConfig { global: None, user: Some(window), guild: None, channel: None }),
        next.user_id == ctx.user_id,
        at <= now,
    ensures
        spec_remaining(spec_started(v, ctx, at), next, now) == (if now - at < window {
            Some((window - (now - at)) as u64)
        } else {
            None
        }),
{
    let s = spec_started(v, ctx, at);
    assert(last_of(s.users, next.user_id) == Some(at));
}

} // verus!
