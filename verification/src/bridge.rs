//! The message-bus bridge protocol: the per-cluster exchange and
//! queue names, dispatch of incoming deliveries by routing key,
//! update-then-publish handling of the event stream, and the
//! request/response shape of cache queries.

use vstd::prelude::*;
use vstd::string::StringExecFns;
use crate::cache::{
    apply_event, spec_arg_count, spec_lookup, CacheEntity, CacheEvent, CacheRequest, EntityCache,
    QueryOutcome,
};
use crate::text::{dec_chars, push_decimal};

verus! {

/// The name of a cluster's exchange.
pub open spec fn spec_exchange_name(cluster_id: u64) -> Seq<char> {
    "rateway-"@ + dec_chars(cluster_id as nat)
}

/// The name of a cluster's incoming queue.
pub open spec fn spec_incoming_queue_name(cluster_id: u64) -> Seq<char> {
    "rateway-incoming-"@ + dec_chars(cluster_id as nat)
}

/// The name of the cluster's exchange: its 1-based id after a fixed
/// prefix.
pub fn exchange_name(cluster_id: u64) -> (s: String)
    ensures
        s@ == spec_exchange_name(cluster_id),
{
    let mut s = String::new();
    s.append("rateway-");
    push_decimal(&mut s, cluster_id);
    proof {
        assert(s@ =~= spec_exchange_name(cluster_id));
    }
    s
}

/// The name of the cluster's incoming queue: its 1-based id after a
/// fixed prefix.
pub fn incoming_queue_name(cluster_id: u64) -> (s: String)
    ensures
        s@ == spec_incoming_queue_name(cluster_id),
{
    let mut s = String::new();
    s.append("rateway-incoming-");
    push_decimal(&mut s, cluster_id);
    proof {
        assert(s@ =~= spec_incoming_queue_name(cluster_id));
    }
    s
}

/// What an incoming delivery is, by its routing key.
#[derive(Clone, Copy, PartialEq, Eq, Structural, Debug)]
pub enum DeliveryKind {
    /// A cache query.
    CacheQuery,
    /// An outbound gateway command.
    GatewayCommand,
    /// Anything else: dropped silently.
    Ignored,
}

/// The routing-key dispatch rule.
pub open spec fn spec_classify_routing_key(key: Seq<char>) -> DeliveryKind {
    if key == "cache"@ {
        DeliveryKind::CacheQuery
    } else if key == "gateway"@ {
        DeliveryKind::GatewayCommand
    } else {
        DeliveryKind::Ignored
    }
}

/// Classifies an incoming delivery by its routing key.
pub fn classify_routing_key(key: &str) -> (k: DeliveryKind)
    ensures
        k == spec_classify_routing_key(key@),
{
    let owned = key.to_owned();
    if owned == String::from_str("cache") {
        DeliveryKind::CacheQuery
    } else if owned == String::from_str("gateway") {
        DeliveryKind::GatewayCommand
    } else {
        DeliveryKind::Ignored
    }
}

/// One publish onto the cluster's exchange.
pub struct BusPublish {
    pub routing_key: String,
    pub body: Vec<u8>,
}

/// A dispatched event as the bridge handles it: the event's type
/// name, its serialized body, and what the cache reads from it.
pub struct DispatchEvent {
    pub event_type: String,
    pub payload: Vec<u8>,
    pub cache_event: CacheEvent,
}

/// Handles one event from the cluster fan-in: the cache is updated
/// first (when caching is enabled), and only then does the publish
/// exist that sends the payload on, with the event's type name as its
/// routing key. A query against the cache this function leaves behind
/// observes the event.
pub fn process_dispatch(cache: &mut EntityCache, cache_enabled: bool, event: DispatchEvent) -> (p:
    BusPublish)
    requires
        old(cache).wf(),
    ensures
        final(cache).wf(),
        cache_enabled ==> final(cache)@ == apply_event(old(cache)@, event.cache_event),
        !cache_enabled ==> *final(cache) == *old(cache),
        p.routing_key == event.event_type,
        p.body == event.payload,
{
    let DispatchEvent { event_type, payload, cache_event } = event;
    if cache_enabled {
        cache.update(cache_event);
    }
    BusPublish { routing_key: event_type, body: payload }
}

/// The byte body an absent entity is answered with:
/// `{"found":false}`.
pub open spec fn not_found_body() -> Seq<u8> {
    seq![
        123u8, 34u8, 102u8, 111u8, 117u8, 110u8, 100u8, 34u8, 58u8, 102u8, 97u8, 108u8, 115u8,
        101u8, 125u8,
    ]
}

/// The body a query answer carries: the serialized entity itself, or
/// the explicit not-found marker — never an ambiguous empty payload.
pub open spec fn response_body(looked_up: Option<Seq<u8>>) -> Seq<u8> {
    match looked_up {
        Some(b) => b,
        None => not_found_body(),
    }
}

/// The explicit not-found answer.
fn make_not_found_body() -> (out: Vec<u8>)
    ensures
        out@ == not_found_body(),
{
    let mut out: Vec<u8> = Vec::new();
    out.push(123);
    out.push(34);
    out.push(102);
    out.push(111);
    out.push(117);
    out.push(110);
    out.push(100);
    out.push(34);
    out.push(58);
    out.push(102);
    out.push(97);
    out.push(108);
    out.push(115);
    out.push(101);
    out.push(125);
    proof {
        assert(out@ =~= not_found_body());
    }
    out
}

/// Handles one cache query from the bus: resolves it against the
/// cache and yields the publish that answers it, on the query's
/// return routing key. A hit carries the serialized entity verbatim;
/// a miss carries the explicit not-found marker. A malformed request
/// (too few ids for its kind) yields no publish and is dropped; it
/// never panics the reader.
pub fn respond_to_query(cache: &EntityCache, req: &CacheRequest) -> (r: Option<BusPublish>)
    requires
        cache.wf(),
    ensures
        r is None <==> req.arguments@.len() < spec_arg_count(req.kind),
        r matches Some(p) ==> p.routing_key@ == req.return_routing_key@ && p.body@
            == response_body(spec_lookup(cache@, req.kind, req.arguments@)),
{
    match cache.resolve(req.kind, &req.arguments) {
        QueryOutcome::Malformed => None,
        QueryOutcome::Found(data) => Some(
            BusPublish { routing_key: req.return_routing_key.clone(), body: data },
        ),
        QueryOutcome::NotFound => Some(
            BusPublish {
                routing_key: req.return_routing_key.clone(),
                body: make_not_found_body(),
            },
        ),
    }
}

/// The integer shapes an AMQP field value may carry a shard id in; a
/// value of any other shape carries none.
pub enum AmqpIntValue {
    ShortShort(i8),
    ShortShortU(u8),
    Short(i16),
    ShortU(u16),
    Long(i32),
    LongU(u32),
    LongLong(i64),
    Other,
}

/// The shard id a header value carries, widened as the reader widens
/// it.
pub open spec fn spec_shard_id_of_header(v: AmqpIntValue) -> Option<u64> {
    match v {
        AmqpIntValue::ShortShort(n) => Some(n as u64),
        AmqpIntValue::ShortShortU(n) => Some(n as u64),
        AmqpIntValue::Short(n) => Some(n as u64),
        AmqpIntValue::ShortU(n) => Some(n as u64),
        AmqpIntValue::Long(n) => Some(n as u64),
        AmqpIntValue::LongU(n) => Some(n as u64),
        AmqpIntValue::LongLong(n) => Some(n as u64),
        AmqpIntValue::Other => None,
    }
}

/// Reads the target shard id out of a delivery's header value.
pub fn shard_id_of_header(v: &AmqpIntValue) -> (r: Option<u64>)
    ensures
        r == spec_shard_id_of_header(*v),
{
    match v {
        AmqpIntValue::ShortShort(n) => Some(*n as u64),
        AmqpIntValue::ShortShortU(n) => Some(*n as u64),
        AmqpIntValue::Short(n) => Some(*n as u64),
        AmqpIntValue::ShortU(n) => Some(*n as u64),
        AmqpIntValue::Long(n) => Some(*n as u64),
        AmqpIntValue::LongU(n) => Some(*n as u64),
        AmqpIntValue::LongLong(n) => Some(*n as u64),
        AmqpIntValue::Other => None,
    }
}

/// The wire name of each entity kind in a cache query.
pub open spec fn spec_entity_kind_of_name(s: Seq<char>) -> Option<CacheEntity> {
    if s == "CurrentUser"@ {
        Some(CacheEntity::CurrentUser)
    } else if s == "GuildChannel"@ {
        Some(CacheEntity::GuildChannel)
    } else if s == "Emoji"@ {
        Some(CacheEntity::Emoji)
    } else if s == "Group"@ {
        Some(CacheEntity::Group)
    } else if s == "Guild"@ {
        Some(CacheEntity::Guild)
    } else if s == "Member"@ {
        Some(CacheEntity::Member)
    } else if s == "Message"@ {
        Some(CacheEntity::Message)
    } else if s == "Presence"@ {
        Some(CacheEntity::Presence)
    } else if s == "PrivateChannel"@ {
        Some(CacheEntity::PrivateChannel)
    } else if s == "Role"@ {
        Some(CacheEntity::Role)
    } else if s == "User"@ {
        Some(CacheEntity::User)
    } else if s == "VoiceChannelStates"@ {
        Some(CacheEntity::VoiceChannelStates)
    } else if s == "VoiceState"@ {
        Some(CacheEntity::VoiceState)
    } else {
        None
    }
}

/// Maps a query's kind string to the entity kind it names.
pub fn entity_kind_of_name(name: &str) -> (k: Option<CacheEntity>)
    ensures
        k == spec_entity_kind_of_name(name@),
{
    let owned = name.to_owned();
    if owned == String::from_str("CurrentUser") {
        Some(CacheEntity::CurrentUser)
    } else if owned == String::from_str("GuildChannel") {
        Some(CacheEntity::GuildChannel)
    } else if owned == String::from_str("Emoji") {
        Some(CacheEntity::Emoji)
    } else if owned == String::from_str("Group") {
        Some(CacheEntity::Group)
    } else if owned == String::from_str("Guild") {
        Some(CacheEntity::Guild)
    } else if owned == String::from_str("Member") {
        Some(CacheEntity::Member)
    } else if owned == String::from_str("Message") {
        Some(CacheEntity::Message)
    } else if owned == String::from_str("Presence") {
        Some(CacheEntity::Presence)
    } else if owned == String::from_str("PrivateChannel") {
        Some(CacheEntity::PrivateChannel)
    } else if owned == String::from_str("Role") {
        Some(CacheEntity::Role)
    } else if owned == String::from_str("User") {
        Some(CacheEntity::User)
    } else if owned == String::from_str("VoiceChannelStates") {
        Some(CacheEntity::VoiceChannelStates)
    } else if owned == String::from_str("VoiceState") {
        Some(CacheEntity::VoiceState)
    } else {
        None
    }
}

} // verus!
