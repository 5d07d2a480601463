use vstd::prelude::*;
use crate::permissions::{PermissionSet, group_permission_set};

verus! {

broadcast use group_permission_set;

/// The kind of a channel as the guild cache records it.
#[derive(Clone, Copy, Debug, PartialEq, Eq, Structural)]
pub enum ChannelKind {
    /// A standard guild channel that can carry text commands.
    GuildText,
    /// Any other kind (threads, forum posts, categories, ...).
    Other,
}

/// One channel of a cached guild.
#[derive(Clone, Copy, Debug, PartialEq, Eq, Structural)]
pub struct ChannelEntry {
    pub id: u64,
    pub kind: ChannelKind,
}

/// What the local cache knows of one guild: its channels and the ids of its cached members.
#[derive(Debug)]
pub struct GuildView {
    pub channels: Vec<ChannelEntry>,
    pub members: Vec<u64>,
}

/// Where a permission resolution stands.
#[derive(Clone, Copy, Debug, PartialEq, Eq, Structural)]
pub enum ResolveStep {
    /// Resolution ended: the effective permissions, or `None` when they are unknown.
    Known(Option<PermissionSet>),
    /// The channel is not a standard guild text channel: the permissions are unknown, and the
    /// caller reports a warning.
    UnsupportedChannel,
    /// The member is not cached: the caller fetches it remotely, then calls `after_member_fetch`.
    FetchMember,
    /// Channel and member are at hand: the caller computes the effective permissions; a failure
    /// there means unknown.
    Compute,
}

/// The kind of the first channel of `channels` with id `id`, if any.
pub open spec fn channel_kind(channels: Seq<ChannelEntry>, id: u64) -> Option<ChannelKind>
    decreases channels.len(),
{
    if channels.len() == 0 {
        None
    } else if channels[0].id == id {
        Some(channels[0].kind)
    } else {
        channel_kind(channels.drop_first(), id)
    }
}

/// The first step of resolving the permissions of `user_id` in `channel_id`.
pub open spec fn start_step(
    guild_id: Option<u64>,
    guild: Option<&GuildView>,
    channel_id: u64,
    user_id: u64,
) -> ResolveStep {
    match guild_id {
        None => ResolveStep::Known(Some(PermissionSet::spec_all())),
        Some(_) => match guild {
            None => ResolveStep::Known(None),
            Some(g) => match channel_kind(g.channels@, channel_id) {
                None => ResolveStep::Known(None),
                Some(ChannelKind::Other) => ResolveStep::UnsupportedChannel,
                Some(ChannelKind::GuildText) => if g.members@.contains(user_id) {
                    ResolveStep::Compute
                } else {
                    ResolveStep::FetchMember
                },
            },
        },
    }
}

fn find_channel(channels: &Vec<ChannelEntry>, id: u64) -> (r: Option<ChannelKind>)
    ensures
        r == channel_kind(channels@, id),
{
    let mut i: usize = 0;
    assert(channels@.subrange(0, channels@.len() as int) =~= channels@);
    while i < channels.len()
        invariant
            0 <= i <= channels@.len(),
            channel_kind(channels@, id) == channel_kind(channels@.subrange(i as int, channels@.len() as int), id),
        decreases channels.len() - i,
    {
        let c = channels[i];
        let ghost rest = channels@.subrange(i as int, channels@.len() as int);
        assert(rest[0] == c);
        if c.id == id {
            return Some(c.kind);
        }
        assert(rest.drop_first() =~= channels@.subrange(i + 1, channels@.len() as int));
        i = i + 1;
    }
    None
}

fn is_cached_member(members: &Vec<u64>, user_id: u64) -> (r: bool)
    ensures
        r == members@.contains(user_id),
{
    let mut i: usize = 0;
    while i < members.len()
        invariant
            0 <= i <= members@.len(),
            forall|j: int| 0 <= j < i ==> members@[j] != user_id,
        decreases members.len() - i,
    {
        if members[i] == user_id {
            return true;
        }
        i = i + 1;
    }
    false
}

/// The first step of resolving a user's effective permissions in a channel.
///
/// In a direct message (no guild) every capability is granted. A guild missing from the
/// cache, or a channel missing from the guild, gives unknown permissions; a channel of another
/// kind than a guild text channel is reported as unsupported. Otherwise the member is taken
/// from the cache, or fetched when absent.
pub fn user_permissions(
    guild_id: Option<u64>,
    guild: Option<&GuildView>,
    channel_id: u64,
    user_id: u64,
) -> (r: ResolveStep)
    ensures
        r == start_step(guild_id, guild, channel_id, user_id),
{
    match guild_id {
        None => ResolveStep::Known(Some(PermissionSet::all())),
        Some(_) => match guild {
            None => ResolveStep::Known(None),
            Some(g) => match find_channel(&g.channels, channel_id) {
                None => ResolveStep::Known(None),
                Some(ChannelKind::Other) => ResolveStep::UnsupportedChannel,
                Some(ChannelKind::GuildText) => if is_cached_member(&g.members, user_id) {
                    ResolveStep::Compute
                } else {
                    ResolveStep::FetchMember
                },
            },
        },
    }
}

/// The step after a remote member fetch: compute on success, unknown on failure.
pub fn after_member_fetch(fetched: bool) -> (r: ResolveStep)
    ensures
        r == (if fetched { ResolveStep::Compute } else { ResolveStep::Known(None) }),
{
    if fetched {
        ResolveStep::Compute
    } else {
        ResolveStep::Known(None)
    }
}

} // verus!
