use rateway::bridge::{
    classify_routing_key, entity_kind_of_name, exchange_name, incoming_queue_name,
    process_dispatch, respond_to_query, shard_id_of_header, AmqpIntValue, DeliveryKind,
    DispatchEvent,
};
use rateway::cache::{CacheEntity, CacheEvent, CacheRequest, EntityCache, QueryOutcome};

#[test]
fn bus_names_follow_cluster_id() {
    assert_eq!(exchange_name(3), "rateway-3");
    assert_eq!(exchange_name(12), "rateway-12");
    assert_eq!(incoming_queue_name(3), "rateway-incoming-3");
    assert_eq!(incoming_queue_name(250), "rateway-incoming-250");
}

#[test]
fn routing_keys_dispatch_deliveries() {
    assert_eq!(classify_routing_key("cache"), DeliveryKind::CacheQuery);
    assert_eq!(classify_routing_key("gateway"), DeliveryKind::GatewayCommand);
    assert_eq!(classify_routing_key("something-else"), DeliveryKind::Ignored);
    assert_eq!(classify_routing_key(""), DeliveryKind::Ignored);
    assert_eq!(classify_routing_key("Cache"), DeliveryKind::Ignored);
}

#[test]
fn dispatch_updates_cache_before_publish() {
    let mut cache = EntityCache::new();
    let publish = process_dispatch(
        &mut cache,
        true,
        DispatchEvent {
            event_type: String::from("MESSAGE_CREATE"),
            payload: b"{\"id\":8}".to_vec(),
            cache_event: CacheEvent::MessageCreate {
                channel_id: 7,
                message_id: 8,
                data: b"{\"id\":8}".to_vec(),
            },
        },
    );
    assert_eq!(publish.routing_key, "MESSAGE_CREATE");
    assert_eq!(publish.body, b"{\"id\":8}".to_vec());
    // The publish in hand, the cache already answers with the update.
    match cache.resolve(CacheEntity::Message, &vec![7, 8]) {
        QueryOutcome::Found(b) => assert_eq!(b, b"{\"id\":8}".to_vec()),
        _ => panic!("the processed event must be visible to queries"),
    }
}

#[test]
fn dispatch_with_cache_disabled_still_publishes() {
    let mut cache = EntityCache::new();
    let publish = process_dispatch(
        &mut cache,
        false,
        DispatchEvent {
            event_type: String::from("MESSAGE_CREATE"),
            payload: b"x".to_vec(),
            cache_event: CacheEvent::MessageCreate {
                channel_id: 7,
                message_id: 8,
                data: b"x".to_vec(),
            },
        },
    );
    assert_eq!(publish.routing_key, "MESSAGE_CREATE");
    assert!(matches!(
        cache.resolve(CacheEntity::Message, &vec![7, 8]),
        QueryOutcome::NotFound
    ));
}

#[test]
fn query_round_trip_found_and_not_found() {
    let mut cache = EntityCache::new();
    cache.update(CacheEvent::GuildCreate {
        guild_id: 123,
        guild: b"{\"id\":123}".to_vec(),
        channels: vec![],
        roles: vec![],
        members: vec![],
        emojis: vec![],
    });

    let hit = respond_to_query(
        &cache,
        &CacheRequest {
            kind: CacheEntity::Guild,
            arguments: vec![123],
            return_routing_key: String::from("resp-1"),
        },
    )
    .expect("well-formed request");
    assert_eq!(hit.routing_key, "resp-1");
    assert_eq!(
        hit.body,
        b"{\"id\":123}".to_vec(),
        "a hit is the serialized entity, verbatim"
    );

    let miss = respond_to_query(
        &cache,
        &CacheRequest {
            kind: CacheEntity::Guild,
            arguments: vec![124],
            return_routing_key: String::from("resp-2"),
        },
    )
    .expect("well-formed request");
    assert_eq!(miss.routing_key, "resp-2");
    assert_eq!(miss.body, b"{\"found\":false}".to_vec());
    assert_ne!(miss.body, Vec::<u8>::new(), "absence is never an empty payload");
}

#[test]
fn malformed_query_is_dropped() {
    let cache = EntityCache::new();
    let none = respond_to_query(
        &cache,
        &CacheRequest {
            kind: CacheEntity::Member,
            arguments: vec![1],
            return_routing_key: String::from("resp"),
        },
    );
    assert!(none.is_none());
}

#[test]
fn header_values_carry_shard_ids() {
    assert_eq!(shard_id_of_header(&AmqpIntValue::ShortShortU(5)), Some(5));
    assert_eq!(shard_id_of_header(&AmqpIntValue::ShortU(300)), Some(300));
    assert_eq!(shard_id_of_header(&AmqpIntValue::Long(7)), Some(7));
    assert_eq!(shard_id_of_header(&AmqpIntValue::LongU(7)), Some(7));
    assert_eq!(shard_id_of_header(&AmqpIntValue::LongLong(9)), Some(9));
    assert_eq!(shard_id_of_header(&AmqpIntValue::Short(-1)), Some(u64::MAX));
    assert_eq!(shard_id_of_header(&AmqpIntValue::Other), None);
}

#[test]
fn entity_kind_names_cover_the_closed_enum() {
    let pairs: [(&str, CacheEntity); 13] = [
        ("CurrentUser", CacheEntity::CurrentUser),
        ("GuildChannel", CacheEntity::GuildChannel),
        ("Emoji", CacheEntity::Emoji),
        ("Group", CacheEntity::Group),
        ("Guild", CacheEntity::Guild),
        ("Member", CacheEntity::Member),
        ("Message", CacheEntity::Message),
        ("Presence", CacheEntity::Presence),
        ("PrivateChannel", CacheEntity::PrivateChannel),
        ("Role", CacheEntity::Role),
        ("User", CacheEntity::User),
        ("VoiceChannelStates", CacheEntity::VoiceChannelStates),
        ("VoiceState", CacheEntity::VoiceState),
    ];
    for (name, kind) in pairs {
        assert_eq!(entity_kind_of_name(name), Some(kind));
    }
    assert_eq!(entity_kind_of_name("guild"), None);
    assert_eq!(entity_kind_of_name(""), None);
}
