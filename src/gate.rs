use vstd::prelude::*;
use crate::cooldown::{CooldownContext, CooldownTracker, TrackerView, spec_remaining, spec_started};
use crate::permissions::{
    PermissionSet, group_permission_set, lemma_minus_all_is_empty, missing_permissions,
    needs_resolution, spec_missing,
};
use crate::resolver::{GuildView, ResolveStep, start_step};

verus! {

broadcast use group_permission_set;

/// Where an error raised by a command's own code came from.
#[derive(Clone, Copy, Debug, PartialEq, Eq, Structural)]
pub enum CommandErrorLocation {
    /// The command's check (or the framework's default check) raised it.
    Check,
    /// The command body raised it, after authorization.
    Body,
}

/// Why an invocation was denied.
#[derive(Clone, Debug, PartialEq, Eq)]
#[allow(inconsistent_fields)]
pub enum FrameworkError<E> {
    /// The command is for owners only and the invoker is not one.
    NotAnOwner,
    /// The invoker lacks required permissions; `None` when its permissions are unknown.
    MissingUserPermissions { missing_permissions: Option<PermissionSet> },
    /// The bot lacks required permissions.
    MissingBotPermissions { missing_permissions: PermissionSet },
    /// The command's check returned false.
    CommandCheckFailed,
    /// The command's code raised `error` at `location`.
    Command { error: E, location: CommandErrorLocation },
    /// The command is on cooldown for this long, in milliseconds.
    CooldownHit { remaining_cooldown: u64 },
}

/// What authorization needs to know of a command.
#[derive(Clone, Copy, Debug, PartialEq, Eq, Structural)]
pub struct CommandDescriptor {
    pub owners_only: bool,
    pub required_permissions: PermissionSet,
    pub required_bot_permissions: PermissionSet,
    /// Whether the command has a check of its own.
    pub has_check: bool,
}

/// Framework-wide settings.
#[derive(Clone, Debug)]
pub struct FrameworkOptions {
    /// The ids of the bot's owners.
    pub owners: Vec<u64>,
    /// Whether a default check applies to commands without a check of their own.
    pub has_default_check: bool,
}

/// One invocation: who sent it, where, and when (in milliseconds).
#[derive(Clone, Copy, Debug, PartialEq, Eq, Structural)]
pub struct Invocation {
    pub author: u64,
    /// The bot's own user id.
    pub bot_id: u64,
    /// `None` in a direct message.
    pub guild_id: Option<u64>,
    pub channel_id: u64,
    pub now: u64,
}

/// The stage an invocation's authorization has reached.
#[derive(Clone, Copy, Debug, PartialEq, Eq, Structural)]
pub enum GateStage {
    /// Nothing checked yet.
    Start,
    /// Waiting for the invoker's permissions.
    UserPermissions,
    /// Waiting for the bot's permissions.
    BotPermissions,
    /// Waiting for the outcome of the command's check.
    Check,
    /// A decision was made.
    Finished,
}

/// What the caller hands to the authorization state machine.
#[derive(Debug, PartialEq, Eq)]
pub enum GateEvent<E> {
    /// The invocation arrives.
    Begin,
    /// The permissions asked for were resolved; `None` when they are unknown.
    Permissions(Option<PermissionSet>),
    /// The check asked for ran: `Ok(passed)`, or the error it raised.
    CheckDone(Result<bool, E>),
}

/// What the authorization state machine asks of the caller.
#[derive(Debug, PartialEq, Eq)]
pub enum GateAction<E> {
    /// Resolve the permissions of this user in the invocation's channel.
    ResolvePermissions { user_id: u64 },
    /// Run the command's check, or the framework's default check.
    RunCheck,
    /// Authorization is over: `Ok` to run the command, or why not.
    Finish(Result<(), FrameworkError<E>>),
}

/// The keys under which `inv` is rate limited.
pub open spec fn cooldown_context(inv: Invocation) -> CooldownContext {
    CooldownContext { user_id: inv.author, guild_id: inv.guild_id, channel_id: inv.channel_id }
}

/// Whether `user` is one of the owners.
pub open spec fn is_owner(options: FrameworkOptions, user: u64) -> bool {
    options.owners@.contains(user)
}

/// Whether `event` is one that is awaited at `stage`.
pub open spec fn event_fits<E>(stage: GateStage, event: GateEvent<E>) -> bool {
    match event {
        GateEvent::Begin => stage == GateStage::Start,
        GateEvent::Permissions(_) => stage == GateStage::UserPermissions || stage
            == GateStage::BotPermissions,
        GateEvent::CheckDone(_) => stage == GateStage::Check,
    }
}

/// A denial: authorization finishes with `e` and leaves the cooldowns as they were.
pub open spec fn deny<E>(v: TrackerView, e: FrameworkError<E>) -> (
    GateStage,
    GateAction<E>,
    TrackerView,
) {
    (GateStage::Finished, GateAction::Finish(Err(e)), v)
}

/// The cooldown stage: a running cooldown denies; otherwise the invocation is recorded and
/// passes.
pub open spec fn from_cooldown<E>(v: TrackerView, inv: Invocation) -> (
    GateStage,
    GateAction<E>,
    TrackerView,
) {
    match spec_remaining(v, cooldown_context(inv), inv.now) {
        Some(remaining) => deny(v, FrameworkError::CooldownHit { remaining_cooldown: remaining }),
        None => (
            GateStage::Finished,
            GateAction::Finish(Ok(())),
            spec_started(v, cooldown_context(inv), inv.now),
        ),
    }
}

/// The check stage: run the command's check or the default one, if either exists.
pub open spec fn from_check<E>(
    cmd: CommandDescriptor,
    options: FrameworkOptions,
    v: TrackerView,
    inv: Invocation,
) -> (GateStage, GateAction<E>, TrackerView) {
    if cmd.has_check || options.has_default_check {
        (GateStage::Check, GateAction::RunCheck, v)
    } else {
        from_cooldown(v, inv)
    }
}

/// The bot permission stage: resolve the bot's permissions, unless none are required.
pub open spec fn from_bot<E>(
    cmd: CommandDescriptor,
    options: FrameworkOptions,
    v: TrackerView,
    inv: Invocation,
) -> (GateStage, GateAction<E>, TrackerView) {
    if cmd.required_bot_permissions@ != 0 {
        (GateStage::BotPermissions, GateAction::ResolvePermissions { user_id: inv.bot_id }, v)
    } else {
        from_check(cmd, options, v, inv)
    }
}

/// The user permission stage: resolve the invoker's permissions, unless none are required.
pub open spec fn from_user<E>(
    cmd: CommandDescriptor,
    options: FrameworkOptions,
    v: TrackerView,
    inv: Invocation,
) -> (GateStage, GateAction<E>, TrackerView) {
    if cmd.required_permissions@ != 0 {
        (GateStage::UserPermissions, GateAction::ResolvePermissions { user_id: inv.author }, v)
    } else {
        from_bot(cmd, options, v, inv)
    }
}

/// The invoker's permissions are in: unknown or insufficient ones deny (fail-closed).
pub open spec fn on_user_permissions<E>(
    cmd: CommandDescriptor,
    options: FrameworkOptions,
    v: TrackerView,
    inv: Invocation,
    actual: Option<PermissionSet>,
) -> (GateStage, GateAction<E>, TrackerView) {
    match spec_missing(cmd.required_permissions, actual) {
        Some(m) => if m@ == 0 {
            from_bot(cmd, options, v, inv)
        } else {
            deny(v, FrameworkError::MissingUserPermissions { missing_permissions: Some(m) })
        },
        None => deny(v, FrameworkError::MissingUserPermissions { missing_permissions: None }),
    }
}

/// The bot's permissions are in: insufficient ones deny, unknown ones pass (fail-open).
pub open spec fn on_bot_permissions<E>(
    cmd: CommandDescriptor,
    options: FrameworkOptions,
    v: TrackerView,
    inv: Invocation,
    actual: Option<PermissionSet>,
) -> (GateStage, GateAction<E>, TrackerView) {
    match spec_missing(cmd.required_bot_permissions, actual) {
        Some(m) => if m@ == 0 {
            from_check(cmd, options, v, inv)
        } else {
            deny(v, FrameworkError::MissingBotPermissions { missing_permissions: m })
        },
        None => from_check(cmd, options, v, inv),
    }
}

/// The check ran: false denies, an error denies with the error tagged as the check's.
pub open spec fn on_check<E>(v: TrackerView, inv: Invocation, outcome: Result<bool, E>) -> (
    GateStage,
    GateAction<E>,
    TrackerView,
) {
    match outcome {
        Ok(true) => from_cooldown(v, inv),
        Ok(false) => deny(v, FrameworkError::CommandCheckFailed),
        Err(error) => deny(v, FrameworkError::Command { error, location: CommandErrorLocation::Check }),
    }
}

/// One authorization step: from `stage`, on `event`, the next stage, the action asked of the
/// caller and the cooldown state after it.
pub open spec fn gate_step<E>(
    stage: GateStage,
    cmd: CommandDescriptor,
    options: FrameworkOptions,
    inv: Invocation,
    v: TrackerView,
    event: GateEvent<E>,
) -> (GateStage, GateAction<E>, TrackerView) {
    match event {
        GateEvent::Begin => if cmd.owners_only && !is_owner(options, inv.author) {
            deny(v, FrameworkError::NotAnOwner)
        } else {
            from_user(cmd, options, v, inv)
        },
        GateEvent::Permissions(actual) => if stage == GateStage::UserPermissions {
            on_user_permissions(cmd, options, v, inv, actual)
        } else {
            on_bot_permissions(cmd, options, v, inv, actual)
        },
        GateEvent::CheckDone(outcome) => on_check(v, inv, outcome),
    }
}

impl Invocation {
    /// The keys under which this invocation is rate limited.
    pub fn cooldown_context(&self) -> (r: CooldownContext)
        ensures
            r == cooldown_context(*self),
    {
        CooldownContext { user_id: self.author, guild_id: self.guild_id, channel_id: self.channel_id }
    }
}

fn contains_user(owners: &Vec<u64>, user: u64) -> (r: bool)
    ensures
        r == owners@.contains(user),
{
    let mut i: usize = 0;
    while i < owners.len()
        invariant
            0 <= i <= owners@.len(),
            forall|j: int| 0 <= j < i ==> owners@[j] != user,
        decreases owners.len() - i,
    {
        if owners[i] == user {
            return true;
        }
        i = i + 1;
    }
    false
}

fn enter_cooldown<E>(stage: &mut GateStage, inv: &Invocation, cooldowns: &mut CooldownTracker) -> (r:
    GateAction<E>)
    ensures
        (*final(stage), r, final(cooldowns)@) == from_cooldown::<E>(old(cooldowns)@, *inv),
{
    let ctx = inv.cooldown_context();
    *stage = GateStage::Finished;
    match cooldowns.remaining_cooldown(&ctx, inv.now) {
        Some(remaining) => GateAction::Finish(
            Err(FrameworkError::CooldownHit { remaining_cooldown: remaining }),
        ),
        None => {
            cooldowns.start_cooldown(&ctx, inv.now);
            GateAction::Finish(Ok(()))
        },
    }
}

fn enter_check<E>(
    stage: &mut GateStage,
    cmd: &CommandDescriptor,
    options: &FrameworkOptions,
    inv: &Invocation,
    cooldowns: &mut CooldownTracker,
) -> (r: GateAction<E>)
    ensures
        (*final(stage), r, final(cooldowns)@) == from_check::<E>(*cmd, *options, old(cooldowns)@, *inv),
{
    if cmd.has_check || options.has_default_check {
        *stage = GateStage::Check;
        GateAction::RunCheck
    } else {
        enter_cooldown(stage, inv, cooldowns)
    }
}

fn enter_bot<E>(
    stage: &mut GateStage,
    cmd: &CommandDescriptor,
    options: &FrameworkOptions,
    inv: &Invocation,
    cooldowns: &mut CooldownTracker,
) -> (r: GateAction<E>)
    ensures
        (*final(stage), r, final(cooldowns)@) == from_bot::<E>(*cmd, *options, old(cooldowns)@, *inv),
{
    if needs_resolution(&cmd.required_bot_permissions) {
        *stage = GateStage::BotPermissions;
        GateAction::ResolvePermissions { user_id: inv.bot_id }
    } else {
        enter_check(stage, cmd, options, inv, cooldowns)
    }
}

fn enter_user<E>(
    stage: &mut GateStage,
    cmd: &CommandDescriptor,
    options: &FrameworkOptions,
    inv: &Invocation,
    cooldowns: &mut CooldownTracker,
) -> (r: GateAction<E>)
    ensures
        (*final(stage), r, final(cooldowns)@) == from_user::<E>(*cmd, *options, old(cooldowns)@, *inv),
{
    if needs_resolution(&cmd.required_permissions) {
        *stage = GateStage::UserPermissions;
        GateAction::ResolvePermissions { user_id: inv.author }
    } else {
        enter_bot(stage, cmd, options, inv, cooldowns)
    }
}

/// Advances the authorization of one invocation by one step.
///
/// The stages run in a fixed order: ownership, the invoker's permissions, the bot's
/// permissions, the command's check, the cooldown. The first stage that fails ends the
/// invocation with its denial. Where a stage needs outside work, authorization stops at it and asks
/// for that work; the caller performs it and hands the result back as the next event. The
/// cooldowns change only when every stage has passed, when the invocation is recorded.
pub fn check_permissions_and_cooldown<E>(
    stage: &mut GateStage,
    cmd: &CommandDescriptor,
    options: &FrameworkOptions,
    inv: &Invocation,
    cooldowns: &mut CooldownTracker,
    event: GateEvent<E>,
) -> (r: GateAction<E>)
    requires
        event_fits(*old(stage), event),
    ensures
        (*final(stage), r, final(cooldowns)@) == gate_step(
            *old(stage),
            *cmd,
            *options,
            *inv,
            old(cooldowns)@,
            event,
        ),
        r != GateAction::<E>::Finish(Ok(())) ==> final(cooldowns)@ == old(cooldowns)@,
        r == GateAction::<E>::Finish(Ok(())) ==> final(cooldowns)@ == spec_started(
            old(cooldowns)@,
            cooldown_context(*inv),
            inv.now,
        ),
        event == GateEvent::<E>::Begin && cmd.owners_only && !is_owner(*options, inv.author) ==> r
            == GateAction::<E>::Finish(Err(FrameworkError::NotAnOwner)),
        event == GateEvent::<E>::Begin && cmd.required_permissions@ == 0 ==> {
            &&& *final(stage) != GateStage::UserPermissions
            &&& !(r matches GateAction::Finish(
                Err(FrameworkError::MissingUserPermissions { .. }),
            ))
        },
        forall|e: E|
            event == GateEvent::CheckDone(Err(e)) ==> r == GateAction::Finish(
                Err(FrameworkError::Command { error: e, location: CommandErrorLocation::Check }),
            ),
{
    match event {
        GateEvent::Begin => {
            if cmd.owners_only && !contains_user(&options.owners, inv.author) {
                *stage = GateStage::Finished;
                GateAction::Finish(Err(FrameworkError::NotAnOwner))
            } else {
                enter_user(stage, cmd, options, inv, cooldowns)
            }
        },
        GateEvent::Permissions(actual) => {
            if *stage == GateStage::UserPermissions {
                match missing_permissions(cmd.required_permissions, actual) {
                    Some(m) => if m.is_empty() {
                        enter_bot(stage, cmd, options, inv, cooldowns)
                    } else {
                        *stage = GateStage::Finished;
                        GateAction::Finish(
                            Err(FrameworkError::MissingUserPermissions { missing_permissions: Some(m) }),
                        )
                    },
                    None => {
                        *stage = GateStage::Finished;
                        GateAction::Finish(
                            Err(FrameworkError::MissingUserPermissions { missing_permissions: None }),
                        )
                    },
                }
            } else {
                match missing_permissions(cmd.required_bot_permissions, actual) {
                    Some(m) => if m.is_empty() {
                        enter_check(stage, cmd, options, inv, cooldowns)
                    } else {
                        *stage = GateStage::Finished;
                        GateAction::Finish(
                            Err(FrameworkError::MissingBotPermissions { missing_permissions: m }),
                        )
                    },
                    None => enter_check(stage, cmd, options, inv, cooldowns),
                }
            }
        },
        GateEvent::CheckDone(outcome) => match outcome {
            Ok(true) => enter_cooldown(stage, inv, cooldowns),
            Ok(false) => {
                *stage = GateStage::Finished;
                GateAction::Finish(Err(FrameworkError::CommandCheckFailed))
            },
            Err(error) => {
                *stage = GateStage::Finished;
                GateAction::Finish(
                    Err(FrameworkError::Command { error, location: CommandErrorLocation::Check }),
                )
            },
        },
    }
}

/// A direct message grants every capability, so whatever a command requires of its invoker,
/// the invoker's permission stage passes there.
pub proof fn lemma_direct_message_passes_user_stage<E>(
    cmd: CommandDescriptor,
    options: FrameworkOptions,
    v: TrackerView,
    inv: Invocation,
    guild: Option<&GuildView>,
)
    requires
        cmd.required_permissions.wf(),
        inv.guild_id.is_none(),
    ensures
        start_step(inv.guild_id, guild, inv.channel_id, inv.author) == ResolveStep::Known(
            Some(PermissionSet::spec_all()),
        ),
        on_user_permissions::<E>(cmd, options, v, inv, Some(PermissionSet::spec_all()))
            == from_bot::<E>(cmd, options, v, inv),
{
    if cmd.required_permissions@ != 0 {
        lemma_minus_all_is_empty(cmd.required_permissions@);
    }
}

/// A guild missing from the cache leaves the invoker's permissions unknown, and the invoker's
/// permission stage, when the command requires anything of the invoker, denies with no
/// missing set.
pub proof fn lemma_uncached_guild_denies_user<E>(
    cmd: CommandDescriptor,
    options: FrameworkOptions,
    v: TrackerView,
    inv: Invocation,
)
    requires
        inv.guild_id.is_some(),
        cmd.required_permissions@ != 0,
    ensures
        start_step(inv.guild_id, None, inv.channel_id, inv.author) == ResolveStep::Known(None),
        on_user_permissions::<E>(cmd, options, v, inv, None) == deny::<E>(
            v,
            FrameworkError::MissingUserPermissions { missing_permissions: None },
        ),
{
}

/// Unknown permissions deny the invoker (fail-closed) and let the bot through (fail-open):
/// the same unknown result ends the invoker's stage with a denial and moves the bot's stage on
/// to the check.
pub proof fn lemma_unknown_permissions_asymmetry<E>(
    cmd: CommandDescriptor,
    options: FrameworkOptions,
    v: TrackerView,
    inv: Invocation,
)
    requires
        cmd.required_permissions@ != 0,
    ensures
        on_user_permissions::<E>(cmd, options, v, inv, None) == deny::<E>(
            v,
            FrameworkError::MissingUserPermissions { missing_permissions: None },
        ),
        on_bot_permissions::<E>(cmd, options, v, inv, None) == from_check::<E>(cmd, options, v, inv),
{
}

} // verus!
