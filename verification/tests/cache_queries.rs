use rateway::cache::{CacheEntity, CacheEvent, ChannelKind, EntityCache, QueryOutcome};

fn found(q: QueryOutcome) -> Vec<u8> {
    match q {
        QueryOutcome::Found(b) => b,
        QueryOutcome::NotFound => panic!("expected Found, got NotFound"),
        QueryOutcome::Malformed => panic!("expected Found, got Malformed"),
    }
}

#[test]
fn guild_round_trip_and_explicit_not_found() {
    let mut cache = EntityCache::new();
    cache.update(CacheEvent::GuildCreate {
        guild_id: 123,
        guild: b"{\"id\":123}".to_vec(),
        channels: vec![],
        roles: vec![],
        members: vec![],
        emojis: vec![],
    });
    let hit = cache.resolve(CacheEntity::Guild, &vec![123]);
    assert_eq!(found(hit), b"{\"id\":123}".to_vec());
    let miss = cache.resolve(CacheEntity::Guild, &vec![124]);
    assert!(matches!(miss, QueryOutcome::NotFound));
}

#[test]
fn guild_create_populates_carried_entities() {
    let mut cache = EntityCache::new();
    cache.update(CacheEvent::GuildCreate {
        guild_id: 1,
        guild: b"g".to_vec(),
        channels: vec![(10, b"c10".to_vec()), (11, b"c11".to_vec())],
        roles: vec![(20, b"r20".to_vec())],
        members: vec![(30, b"m30".to_vec()), (31, b"m31".to_vec())],
        emojis: vec![(40, b"e40".to_vec())],
    });
    assert_eq!(found(cache.resolve(CacheEntity::GuildChannel, &vec![11])), b"c11".to_vec());
    assert_eq!(found(cache.resolve(CacheEntity::Role, &vec![20])), b"r20".to_vec());
    assert_eq!(found(cache.resolve(CacheEntity::Member, &vec![1, 30])), b"m30".to_vec());
    assert_eq!(found(cache.resolve(CacheEntity::Emoji, &vec![40])), b"e40".to_vec());
    assert!(matches!(
        cache.resolve(CacheEntity::Member, &vec![2, 30]),
        QueryOutcome::NotFound
    ));
}

#[test]
fn update_replaces_value_whole() {
    let mut cache = EntityCache::new();
    cache.update(CacheEvent::PresenceUpdate {
        guild_id: 5,
        user_id: 6,
        data: b"online".to_vec(),
    });
    cache.update(CacheEvent::PresenceUpdate {
        guild_id: 5,
        user_id: 6,
        data: b"idle".to_vec(),
    });
    assert_eq!(found(cache.resolve(CacheEntity::Presence, &vec![5, 6])), b"idle".to_vec());
}

#[test]
fn message_create_then_delete_evicts() {
    let mut cache = EntityCache::new();
    cache.update(CacheEvent::MessageCreate {
        channel_id: 7,
        message_id: 8,
        data: b"hi".to_vec(),
    });
    assert_eq!(found(cache.resolve(CacheEntity::Message, &vec![7, 8])), b"hi".to_vec());
    cache.update(CacheEvent::MessageDelete { channel_id: 7, message_id: 8 });
    assert!(matches!(
        cache.resolve(CacheEntity::Message, &vec![7, 8]),
        QueryOutcome::NotFound
    ));
}

#[test]
fn channel_kinds_go_to_their_stores() {
    let mut cache = EntityCache::new();
    cache.update(CacheEvent::ChannelCreate {
        channel_id: 1,
        kind: ChannelKind::Private,
        data: b"dm".to_vec(),
    });
    cache.update(CacheEvent::ChannelCreate {
        channel_id: 2,
        kind: ChannelKind::Group,
        data: b"grp".to_vec(),
    });
    assert_eq!(found(cache.resolve(CacheEntity::PrivateChannel, &vec![1])), b"dm".to_vec());
    assert_eq!(found(cache.resolve(CacheEntity::Group, &vec![2])), b"grp".to_vec());
    assert!(matches!(
        cache.resolve(CacheEntity::GuildChannel, &vec![1]),
        QueryOutcome::NotFound
    ));
    cache.update(CacheEvent::ChannelDelete { channel_id: 1, kind: ChannelKind::Private });
    assert!(matches!(
        cache.resolve(CacheEntity::PrivateChannel, &vec![1]),
        QueryOutcome::NotFound
    ));
}

#[test]
fn current_user_singleton() {
    let mut cache = EntityCache::new();
    assert!(matches!(
        cache.resolve(CacheEntity::CurrentUser, &vec![]),
        QueryOutcome::NotFound
    ));
    cache.update(CacheEvent::Ready { current_user: b"me".to_vec() });
    assert_eq!(found(cache.resolve(CacheEntity::CurrentUser, &vec![])), b"me".to_vec());
    cache.update(CacheEvent::UserUpdate { current_user: b"me2".to_vec() });
    assert_eq!(found(cache.resolve(CacheEntity::CurrentUser, &vec![])), b"me2".to_vec());
}

#[test]
fn member_remove_keeps_user() {
    let mut cache = EntityCache::new();
    cache.update(CacheEvent::MemberAdd {
        guild_id: 1,
        user_id: 2,
        member: b"member".to_vec(),
        user: b"user".to_vec(),
    });
    assert_eq!(found(cache.resolve(CacheEntity::Member, &vec![1, 2])), b"member".to_vec());
    assert_eq!(found(cache.resolve(CacheEntity::User, &vec![2])), b"user".to_vec());
    cache.update(CacheEvent::MemberRemove { guild_id: 1, user_id: 2 });
    assert!(matches!(
        cache.resolve(CacheEntity::Member, &vec![1, 2]),
        QueryOutcome::NotFound
    ));
    assert_eq!(found(cache.resolve(CacheEntity::User, &vec![2])), b"user".to_vec());
}

#[test]
fn role_and_guild_delete() {
    let mut cache = EntityCache::new();
    cache.update(CacheEvent::RoleCreate { role_id: 9, data: b"r".to_vec() });
    cache.update(CacheEvent::RoleDelete { role_id: 9 });
    assert!(matches!(cache.resolve(CacheEntity::Role, &vec![9]), QueryOutcome::NotFound));
    cache.update(CacheEvent::GuildCreate {
        guild_id: 3,
        guild: b"g".to_vec(),
        channels: vec![],
        roles: vec![],
        members: vec![],
        emojis: vec![],
    });
    cache.update(CacheEvent::GuildDelete { guild_id: 3 });
    assert!(matches!(cache.resolve(CacheEntity::Guild, &vec![3]), QueryOutcome::NotFound));
}

#[test]
fn voice_states_and_channel_listing() {
    let mut cache = EntityCache::new();
    cache.update(CacheEvent::VoiceStateUpdate {
        guild_id: 1,
        user_id: 100,
        channel_id: Some(5),
        data: b"{\"u\":100}".to_vec(),
    });
    cache.update(CacheEvent::VoiceStateUpdate {
        guild_id: 1,
        user_id: 101,
        channel_id: Some(5),
        data: b"{\"u\":101}".to_vec(),
    });
    cache.update(CacheEvent::VoiceStateUpdate {
        guild_id: 1,
        user_id: 102,
        channel_id: Some(6),
        data: b"{\"u\":102}".to_vec(),
    });
    assert_eq!(
        found(cache.resolve(CacheEntity::VoiceState, &vec![1, 100])),
        b"{\"u\":100}".to_vec()
    );
    assert_eq!(
        found(cache.resolve(CacheEntity::VoiceChannelStates, &vec![5])),
        b"[{\"u\":100},{\"u\":101}]".to_vec()
    );
    assert_eq!(
        found(cache.resolve(CacheEntity::VoiceChannelStates, &vec![6])),
        b"[{\"u\":102}]".to_vec()
    );

    // User 100 leaves voice: the listing and the state entry follow.
    cache.update(CacheEvent::VoiceStateUpdate {
        guild_id: 1,
        user_id: 100,
        channel_id: None,
        data: vec![],
    });
    assert!(matches!(
        cache.resolve(CacheEntity::VoiceState, &vec![1, 100]),
        QueryOutcome::NotFound
    ));
    assert_eq!(
        found(cache.resolve(CacheEntity::VoiceChannelStates, &vec![5])),
        b"[{\"u\":101}]".to_vec()
    );

    // User 101 moves to channel 6; their entry keeps its place in
    // the store, so the listing orders 101 before 102.
    cache.update(CacheEvent::VoiceStateUpdate {
        guild_id: 1,
        user_id: 101,
        channel_id: Some(6),
        data: b"{\"u\":101}".to_vec(),
    });
    assert!(matches!(
        cache.resolve(CacheEntity::VoiceChannelStates, &vec![5]),
        QueryOutcome::NotFound
    ));
    assert_eq!(
        found(cache.resolve(CacheEntity::VoiceChannelStates, &vec![6])),
        b"[{\"u\":101},{\"u\":102}]".to_vec()
    );
}

#[test]
fn too_few_arguments_is_malformed_not_a_panic() {
    let cache = EntityCache::new();
    assert!(matches!(
        cache.resolve(CacheEntity::Member, &vec![1]),
        QueryOutcome::Malformed
    ));
    assert!(matches!(
        cache.resolve(CacheEntity::Guild, &vec![]),
        QueryOutcome::Malformed
    ));
    // Extra arguments beyond the kind's count are ignored.
    let mut cache = EntityCache::new();
    cache.update(CacheEvent::RoleCreate { role_id: 1, data: b"r".to_vec() });
    assert_eq!(found(cache.resolve(CacheEntity::Role, &vec![1, 99])), b"r".to_vec());
}

#[test]
fn empty_entity_differs_from_absent_entity() {
    let mut cache = EntityCache::new();
    cache.update(CacheEvent::RoleCreate { role_id: 1, data: vec![] });
    assert_eq!(found(cache.resolve(CacheEntity::Role, &vec![1])), Vec::<u8>::new());
    assert!(matches!(cache.resolve(CacheEntity::Role, &vec![2]), QueryOutcome::NotFound));
}
