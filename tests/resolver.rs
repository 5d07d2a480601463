use command_gate::permissions::PermissionSet;
use command_gate::resolver::{
    after_member_fetch, user_permissions, ChannelEntry, ChannelKind, GuildView, ResolveStep,
};

fn guild() -> GuildView {
    GuildView {
        channels: vec![
            ChannelEntry { id: 10, kind: ChannelKind::GuildText },
            ChannelEntry { id: 11, kind: ChannelKind::Other },
        ],
        members: vec![100, 101],
    }
}

#[test]
fn direct_message_grants_everything() {
    assert_eq!(
        user_permissions(None, None, 10, 100),
        ResolveStep::Known(Some(PermissionSet::all()))
    );
    let g = guild();
    assert_eq!(
        user_permissions(None, Some(&g), 99, 555),
        ResolveStep::Known(Some(PermissionSet::all()))
    );
}

#[test]
fn uncached_guild_is_unknown() {
    assert_eq!(user_permissions(Some(1), None, 10, 100), ResolveStep::Known(None));
}

#[test]
fn missing_channel_is_unknown() {
    let g = guild();
    assert_eq!(user_permissions(Some(1), Some(&g), 12, 100), ResolveStep::Known(None));
}

#[test]
fn other_channel_kind_is_unsupported() {
    let g = guild();
    assert_eq!(user_permissions(Some(1), Some(&g), 11, 100), ResolveStep::UnsupportedChannel);
}

#[test]
fn cached_member_is_computed_directly() {
    let g = guild();
    assert_eq!(user_permissions(Some(1), Some(&g), 10, 101), ResolveStep::Compute);
}

#[test]
fn uncached_member_is_fetched() {
    let g = guild();
    assert_eq!(user_permissions(Some(1), Some(&g), 10, 200), ResolveStep::FetchMember);
    assert_eq!(after_member_fetch(true), ResolveStep::Compute);
    assert_eq!(after_member_fetch(false), ResolveStep::Known(None));
}
