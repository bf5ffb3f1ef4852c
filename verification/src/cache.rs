//! The in-memory entity cache: one keyed store per entity kind,
//! updated from the dispatched event stream and consulted by cache
//! queries. Every update replaces the previous value for its key
//! whole; a query distinguishes an absent entity from any present
//! one.

use vstd::prelude::*;
use crate::store::{
    distinct_keys, entries_map, find_index, lemma_find_index, lemma_map_push, lemma_map_update,
    EntityKey, KeyedStore, StoreEntry,
};

verus! {

/// The kinds of entity the cache tracks and answers queries about.
#[derive(Clone, Copy, PartialEq, Eq, Structural, Debug)]
pub enum CacheEntity {
    CurrentUser,
    GuildChannel,
    Emoji,
    Group,
    Guild,
    Member,
    Message,
    Presence,
    PrivateChannel,
    Role,
    User,
    VoiceChannelStates,
    VoiceState,
}

/// A cache query: the entity kind, the ids that key it, in order, and
/// the routing key the answer must be published under.
pub struct CacheRequest {
    pub kind: CacheEntity,
    pub arguments: Vec<u64>,
    pub return_routing_key: String,
}

/// How many ids a query for this kind names.
pub open spec fn spec_arg_count(kind: CacheEntity) -> int {
    match kind {
        CacheEntity::CurrentUser => 0,
        CacheEntity::Member => 2,
        CacheEntity::Message => 2,
        CacheEntity::Presence => 2,
        CacheEntity::VoiceState => 2,
        _ => 1,
    }
}

/// How many ids a query for this kind names.
pub fn arg_count(kind: CacheEntity) -> (n: usize)
    ensures
        n == spec_arg_count(kind),
{
    match kind {
        CacheEntity::CurrentUser => 0,
        CacheEntity::Member => 2,
        CacheEntity::Message => 2,
        CacheEntity::Presence => 2,
        CacheEntity::VoiceState => 2,
        _ => 1,
    }
}

/// The key of a kind addressed by one id.
pub open spec fn key1(id: u64) -> EntityKey {
    EntityKey { a: id, b: 0 }
}

/// The key of a kind addressed by two ids.
pub open spec fn key2(a: u64, b: u64) -> EntityKey {
    EntityKey { a, b }
}

/// One tracked voice state: the channel the user sits in and the
/// serialized state body.
pub struct VoiceRecord {
    pub channel_id: Option<u64>,
    pub data: Vec<u8>,
}

/// Which store a created or deleted channel belongs to.
#[derive(Clone, Copy, PartialEq, Eq, Structural, Debug)]
pub enum ChannelKind {
    Guild,
    Private,
    Group,
}

/// A dispatched event reduced to what the cache reads from it: the
/// ids that key the touched entities and the serialized bodies that
/// replace them.
pub enum CacheEvent {
    /// The session became ready: the current user.
    Ready { current_user: Vec<u8> },
    /// The current user changed.
    UserUpdate { current_user: Vec<u8> },
    /// A guild arrived or changed, with the entities it carries.
    GuildCreate {
        guild_id: u64,
        guild: Vec<u8>,
        channels: Vec<(u64, Vec<u8>)>,
        roles: Vec<(u64, Vec<u8>)>,
        members: Vec<(u64, Vec<u8>)>,
        emojis: Vec<(u64, Vec<u8>)>,
    },
    /// A guild went away.
    GuildDelete { guild_id: u64 },
    /// A channel arrived or changed.
    ChannelCreate { channel_id: u64, kind: ChannelKind, data: Vec<u8> },
    /// A channel went away.
    ChannelDelete { channel_id: u64, kind: ChannelKind },
    /// A message arrived or changed.
    MessageCreate { channel_id: u64, message_id: u64, data: Vec<u8> },
    /// A message went away.
    MessageDelete { channel_id: u64, message_id: u64 },
    /// A member joined or changed, with their user body.
    MemberAdd { guild_id: u64, user_id: u64, member: Vec<u8>, user: Vec<u8> },
    /// A member left; their user entry stays.
    MemberRemove { guild_id: u64, user_id: u64 },
    /// A presence changed.
    PresenceUpdate { guild_id: u64, user_id: u64, data: Vec<u8> },
    /// A role arrived or changed.
    RoleCreate { role_id: u64, data: Vec<u8> },
    /// A role went away.
    RoleDelete { role_id: u64 },
    /// An emoji arrived or changed.
    EmojiUpdate { emoji_id: u64, data: Vec<u8> },
    /// A voice state changed; no channel means the user left voice.
    VoiceStateUpdate { guild_id: u64, user_id: u64, channel_id: Option<u64>, data: Vec<u8> },
    /// An event the cache does not read.
    Untracked,
}

/// The cache's abstract state: one map per entity kind, and the voice
/// states with their insertion order, which the per-channel listing
/// follows.
pub struct CacheView {
    pub current_user: Option<Vec<u8>>,
    pub guild_channels: Map<EntityKey, Vec<u8>>,
    pub emojis: Map<EntityKey, Vec<u8>>,
    pub groups: Map<EntityKey, Vec<u8>>,
    pub guilds: Map<EntityKey, Vec<u8>>,
    pub members: Map<EntityKey, Vec<u8>>,
    pub messages: Map<EntityKey, Vec<u8>>,
    pub presences: Map<EntityKey, Vec<u8>>,
    pub private_channels: Map<EntityKey, Vec<u8>>,
    pub roles: Map<EntityKey, Vec<u8>>,
    pub users: Map<EntityKey, Vec<u8>>,
    pub voice_states: Seq<StoreEntry<VoiceRecord>>,
}

/// Each pair `(id, body)` inserted under its single-id key, in order.
pub open spec fn insert_ids(m: Map<EntityKey, Vec<u8>>, pairs: Seq<(u64, Vec<u8>)>) -> Map<
    EntityKey,
    Vec<u8>,
>
    decreases pairs.len(),
{
    if pairs.len() == 0 {
        m
    } else {
        insert_ids(m.insert(key1(pairs.first().0), pairs.first().1), pairs.drop_first())
    }
}

/// Each pair `(user id, body)` inserted under its member key, in
/// order.
pub open spec fn insert_members(
    m: Map<EntityKey, Vec<u8>>,
    guild_id: u64,
    pairs: Seq<(u64, Vec<u8>)>,
) -> Map<EntityKey, Vec<u8>>
    decreases pairs.len(),
{
    if pairs.len() == 0 {
        m
    } else {
        insert_members(
            m.insert(key2(guild_id, pairs.first().0), pairs.first().1),
            guild_id,
            pairs.drop_first(),
        )
    }
}

/// The voice-state entries after one voice-state update: a state with
/// a channel replaces the entry for its (guild, user) key, keeping
/// the entry's place; one without a channel drops the entry.
pub open spec fn voice_apply(
    s: Seq<StoreEntry<VoiceRecord>>,
    k: EntityKey,
    channel_id: Option<u64>,
    data: Vec<u8>,
) -> Seq<StoreEntry<VoiceRecord>> {
    match channel_id {
        None => if find_index(s, k) == -1 {
            s
        } else {
            s.remove(find_index(s, k))
        },
        Some(_) => {
            let e = StoreEntry { key: k, value: VoiceRecord { channel_id, data } };
            if find_index(s, k) == -1 {
                s.push(e)
            } else {
                s.update(find_index(s, k), e)
            }
        },
    }
}

/// The cache state one event leaves behind.
pub open spec fn apply_event(v: CacheView, ev: CacheEvent) -> CacheView {
    match ev {
        CacheEvent::Ready { current_user } => CacheView { current_user: Some(current_user), ..v },
        CacheEvent::UserUpdate { current_user } => CacheView {
            current_user: Some(current_user),
            ..v
        },
        CacheEvent::GuildCreate { guild_id, guild, channels, roles, members, emojis } => CacheView {
            guilds: v.guilds.insert(key1(guild_id), guild),
            guild_channels: insert_ids(v.guild_channels, channels@),
            roles: insert_ids(v.roles, roles@),
            members: insert_members(v.members, guild_id, members@),
            emojis: insert_ids(v.emojis, emojis@),
            ..v
        },
        CacheEvent::GuildDelete { guild_id } => CacheView {
            guilds: v.guilds.remove(key1(guild_id)),
            ..v
        },
        CacheEvent::ChannelCreate { channel_id, kind, data } => match kind {
            ChannelKind::Guild => CacheView {
                guild_channels: v.guild_channels.insert(key1(channel_id), data),
                ..v
            },
            ChannelKind::Private => CacheView {
                private_channels: v.private_channels.insert(key1(channel_id), data),
                ..v
            },
            ChannelKind::Group => CacheView {
                groups: v.groups.insert(key1(channel_id), data),
                ..v
            },
        },
        CacheEvent::ChannelDelete { channel_id, kind } => match kind {
            ChannelKind::Guild => CacheView {
                guild_channels: v.guild_channels.remove(key1(channel_id)),
                ..v
            },
            ChannelKind::Private => CacheView {
                private_channels: v.private_channels.remove(key1(channel_id)),
                ..v
            },
            ChannelKind::Group => CacheView {
                groups: v.groups.remove(key1(channel_id)),
                ..v
            },
        },
        CacheEvent::MessageCreate { channel_id, message_id, data } => CacheView {
            messages: v.messages.insert(key2(channel_id, message_id), data),
            ..v
        },
        CacheEvent::MessageDelete { channel_id, message_id } => CacheView {
            messages: v.messages.remove(key2(channel_id, message_id)),
            ..v
        },
        CacheEvent::MemberAdd { guild_id, user_id, member, user } => CacheView {
            members: v.members.insert(key2(guild_id, user_id), member),
            users: v.users.insert(key1(user_id), user),
            ..v
        },
        CacheEvent::MemberRemove { guild_id, user_id } => CacheView {
            members: v.members.remove(key2(guild_id, user_id)),
            ..v
        },
        CacheEvent::PresenceUpdate { guild_id, user_id, data } => CacheView {
            presences: v.presences.insert(key2(guild_id, user_id), data),
            ..v
        },
        CacheEvent::RoleCreate { role_id, data } => CacheView {
            roles: v.roles.insert(key1(role_id), data),
            ..v
        },
        CacheEvent::RoleDelete { role_id } => CacheView {
            roles: v.roles.remove(key1(role_id)),
            ..v
        },
        CacheEvent::EmojiUpdate { emoji_id, data } => CacheView {
            emojis: v.emojis.insert(key1(emoji_id), data),
            ..v
        },
        CacheEvent::VoiceStateUpdate { guild_id, user_id, channel_id, data } => CacheView {
            voice_states: voice_apply(v.voice_states, key2(guild_id, user_id), channel_id, data),
            ..v
        },
        CacheEvent::Untracked => v,
    }
}

/// The in-memory entity cache.
pub struct EntityCache {
    pub current_user: Option<Vec<u8>>,
    pub guild_channels: KeyedStore<Vec<u8>>,
    pub emojis: KeyedStore<Vec<u8>>,
    pub groups: KeyedStore<Vec<u8>>,
    pub guilds: KeyedStore<Vec<u8>>,
    pub members: KeyedStore<Vec<u8>>,
    pub messages: KeyedStore<Vec<u8>>,
    pub presences: KeyedStore<Vec<u8>>,
    pub private_channels: KeyedStore<Vec<u8>>,
    pub roles: KeyedStore<Vec<u8>>,
    pub users: KeyedStore<Vec<u8>>,
    pub voice_states: KeyedStore<VoiceRecord>,
}

impl View for EntityCache {
    type V = CacheView;

    open spec fn view(&self) -> CacheView {
        CacheView {
            current_user: self.current_user,
            guild_channels: self.guild_channels.as_map(),
            emojis: self.emojis.as_map(),
            groups: self.groups.as_map(),
            guilds: self.guilds.as_map(),
            members: self.members.as_map(),
            messages: self.messages.as_map(),
            presences: self.presences.as_map(),
            private_channels: self.private_channels.as_map(),
            roles: self.roles.as_map(),
            users: self.users.as_map(),
            voice_states: self.voice_states.as_seq(),
        }
    }
}

impl EntityCache {
    /// Every store keeps its keys unique.
    pub open spec fn wf(self) -> bool {
        &&& self.guild_channels.wf()
        &&& self.emojis.wf()
        &&& self.groups.wf()
        &&& self.guilds.wf()
        &&& self.members.wf()
        &&& self.messages.wf()
        &&& self.presences.wf()
        &&& self.private_channels.wf()
        &&& self.roles.wf()
        &&& self.users.wf()
        &&& self.voice_states.wf()
    }

    /// An empty cache.
    pub fn new() -> (c: EntityCache)
        ensures
            c.wf(),
            c@.current_user is None,
            c@.guilds == Map::<EntityKey, Vec<u8>>::empty(),
            c@.guild_channels == Map::<EntityKey, Vec<u8>>::empty(),
            c@.emojis == Map::<EntityKey, Vec<u8>>::empty(),
            c@.groups == Map::<EntityKey, Vec<u8>>::empty(),
            c@.members == Map::<EntityKey, Vec<u8>>::empty(),
            c@.messages == Map::<EntityKey, Vec<u8>>::empty(),
            c@.presences == Map::<EntityKey, Vec<u8>>::empty(),
            c@.private_channels == Map::<EntityKey, Vec<u8>>::empty(),
            c@.roles == Map::<EntityKey, Vec<u8>>::empty(),
            c@.users == Map::<EntityKey, Vec<u8>>::empty(),
            c@.voice_states == Seq::<StoreEntry<VoiceRecord>>::empty(),
    {
        EntityCache {
            current_user: None,
            guild_channels: KeyedStore::new(),
            emojis: KeyedStore::new(),
            groups: KeyedStore::new(),
            guilds: KeyedStore::new(),
            members: KeyedStore::new(),
            messages: KeyedStore::new(),
            presences: KeyedStore::new(),
            private_channels: KeyedStore::new(),
            roles: KeyedStore::new(),
            users: KeyedStore::new(),
            voice_states: KeyedStore::new(),
        }
    }

    /// Applies one dispatched event to the cache.
    pub fn update(&mut self, ev: CacheEvent)
        requires
            old(self).wf(),
        ensures
            final(self).wf(),
            final(self)@ == apply_event(old(self)@, ev),
    {
        match ev {
            CacheEvent::Ready { current_user } => {
                self.current_user = Some(current_user);
            },
            CacheEvent::UserUpdate { current_user } => {
                self.current_user = Some(current_user);
            },
            CacheEvent::GuildCreate { guild_id, guild, channels, roles, members, emojis } => {
                self.guilds.put(EntityKey { a: guild_id, b: 0 }, guild);
                self.guild_channels.put_all_ids(channels);
                self.roles.put_all_ids(roles);
                self.members.put_all_members(guild_id, members);
                self.emojis.put_all_ids(emojis);
            },
            CacheEvent::GuildDelete { guild_id } => {
                self.guilds.remove(&EntityKey { a: guild_id, b: 0 });
            },
            CacheEvent::ChannelCreate { channel_id, kind, data } => {
                let key = EntityKey { a: channel_id, b: 0 };
                match kind {
                    ChannelKind::Guild => self.guild_channels.put(key, data),
                    ChannelKind::Private => self.private_channels.put(key, data),
                    ChannelKind::Group => self.groups.put(key, data),
                }
            },
            CacheEvent::ChannelDelete { channel_id, kind } => {
                let key = EntityKey { a: channel_id, b: 0 };
                match kind {
                    ChannelKind::Guild => self.guild_channels.remove(&key),
                    ChannelKind::Private => self.private_channels.remove(&key),
                    ChannelKind::Group => self.groups.remove(&key),
                }
            },
            CacheEvent::MessageCreate { channel_id, message_id, data } => {
                self.messages.put(EntityKey { a: channel_id, b: message_id }, data);
            },
            CacheEvent::MessageDelete { channel_id, message_id } => {
                self.messages.remove(&EntityKey { a: channel_id, b: message_id });
            },
            CacheEvent::MemberAdd { guild_id, user_id, member, user } => {
                self.members.put(EntityKey { a: guild_id, b: user_id }, member);
                self.users.put(EntityKey { a: user_id, b: 0 }, user);
            },
            CacheEvent::MemberRemove { guild_id, user_id } => {
                self.members.remove(&EntityKey { a: guild_id, b: user_id });
            },
            CacheEvent::PresenceUpdate { guild_id, user_id, data } => {
                self.presences.put(EntityKey { a: guild_id, b: user_id }, data);
            },
            CacheEvent::RoleCreate { role_id, data } => {
                self.roles.put(EntityKey { a: role_id, b: 0 }, data);
            },
            CacheEvent::RoleDelete { role_id } => {
                self.roles.remove(&EntityKey { a: role_id, b: 0 });
            },
            CacheEvent::EmojiUpdate { emoji_id, data } => {
                self.emojis.put(EntityKey { a: emoji_id, b: 0 }, data);
            },
            CacheEvent::VoiceStateUpdate { guild_id, user_id, channel_id, data } => {
                let key = EntityKey { a: guild_id, b: user_id };
                match channel_id {
                    None => self.voice_states.remove(&key),
                    Some(c) => self.voice_states.put(
                        key,
                        VoiceRecord { channel_id: Some(c), data },
                    ),
                }
            },
            CacheEvent::Untracked => {},
        }
    }
}

/// The outcome of a cache query.
pub enum QueryOutcome {
    /// The entity, serialized.
    Found(Vec<u8>),
    /// No such entity: distinguishable from any present entity,
    /// an empty one included.
    NotFound,
    /// The request named fewer ids than its kind requires.
    Malformed,
}

/// A map lookup as the serialized body it yields.
pub open spec fn map_lookup(m: Map<EntityKey, Vec<u8>>, k: EntityKey) -> Option<Seq<u8>> {
    if m.contains_key(k) {
        Some(m[k]@)
    } else {
        None
    }
}

/// The serialized states of everyone in channel `c`, in cache order.
pub open spec fn channel_states(s: Seq<StoreEntry<VoiceRecord>>, c: u64) -> Seq<Seq<u8>>
    decreases s.len(),
{
    if s.len() == 0 {
        Seq::empty()
    } else {
        let rest = channel_states(s.drop_last(), c);
        if s.last().value.channel_id == Some(c) {
            rest.push(s.last().value.data@)
        } else {
            rest
        }
    }
}

/// A JSON array of already-serialized elements.
pub open spec fn joined_array(ss: Seq<Seq<u8>>) -> Seq<u8> {
    seq![91u8] + join_inner(ss) + seq![93u8]
}

/// The elements joined by commas.
pub open spec fn join_inner(ss: Seq<Seq<u8>>) -> Seq<u8>
    decreases ss.len(),
{
    if ss.len() == 0 {
        Seq::empty()
    } else if ss.len() == 1 {
        ss.first()
    } else {
        join_inner(ss.drop_last()) + seq![44u8] + ss.last()
    }
}

/// The views of a sequence of byte vectors.
pub open spec fn byte_views(s: Seq<Vec<u8>>) -> Seq<Seq<u8>> {
    s.map_values(|b: Vec<u8>| b@)
}

/// What the cache holds for a query: the serialized entity, or
/// nothing. A voice-channel listing is the JSON array of the states
/// in that channel, and is absent when the channel is empty.
pub open spec fn spec_lookup(v: CacheView, kind: CacheEntity, args: Seq<u64>) -> Option<Seq<u8>>
    recommends
        args.len() >= spec_arg_count(kind),
{
    match kind {
        CacheEntity::CurrentUser => match v.current_user {
            Some(b) => Some(b@),
            None => None,
        },
        CacheEntity::GuildChannel => map_lookup(v.guild_channels, key1(args[0])),
        CacheEntity::Emoji => map_lookup(v.emojis, key1(args[0])),
        CacheEntity::Group => map_lookup(v.groups, key1(args[0])),
        CacheEntity::Guild => map_lookup(v.guilds, key1(args[0])),
        CacheEntity::Member => map_lookup(v.members, key2(args[0], args[1])),
        CacheEntity::Message => map_lookup(v.messages, key2(args[0], args[1])),
        CacheEntity::Presence => map_lookup(v.presences, key2(args[0], args[1])),
        CacheEntity::PrivateChannel => map_lookup(v.private_channels, key1(args[0])),
        CacheEntity::Role => map_lookup(v.roles, key1(args[0])),
        CacheEntity::User => map_lookup(v.users, key1(args[0])),
        CacheEntity::VoiceChannelStates => {
            let ss = channel_states(v.voice_states, args[0]);
            if ss.len() == 0 {
                None
            } else {
                Some(joined_array(ss))
            }
        },
        CacheEntity::VoiceState => {
            let m = entries_map(v.voice_states);
            if m.contains_key(key2(args[0], args[1])) {
                Some(m[key2(args[0], args[1])].data@)
            } else {
                None
            }
        },
    }
}

/// Copies serialized bytes out of the cache.
fn clone_bytes(v: &Vec<u8>) -> (r: Vec<u8>)
    ensures
        r@ == v@,
{
    let r = v.clone();
    proof {
        assert(r@ =~= v@);
    }
    r
}

impl EntityCache {
    /// Answers a query: `Found` with the serialized entity exactly
    /// when the cache holds one for the named ids, `NotFound` when it
    /// does not, and `Malformed` when the request names fewer ids
    /// than its kind requires; a malformed request never panics.
    pub fn resolve(&self, kind: CacheEntity, arguments: &Vec<u64>) -> (r: QueryOutcome)
        requires
            self.wf(),
        ensures
            r is Malformed <==> arguments@.len() < spec_arg_count(kind),
            arguments@.len() >= spec_arg_count(kind) ==> ((r is Found) <==> spec_lookup(
                self@,
                kind,
                arguments@,
            ) is Some),
            r matches QueryOutcome::Found(b) ==> spec_lookup(self@, kind, arguments@) == Some(b@),
    {
        if arguments.len() < arg_count(kind) {
            return QueryOutcome::Malformed;
        }
        match kind {
            CacheEntity::CurrentUser => match &self.current_user {
                Some(b) => QueryOutcome::Found(clone_bytes(b)),
                None => QueryOutcome::NotFound,
            },
            CacheEntity::GuildChannel => found_or_not(
                self.guild_channels.get(&EntityKey { a: arguments[0], b: 0 }),
            ),
            CacheEntity::Emoji => found_or_not(self.emojis.get(&EntityKey { a: arguments[0], b: 0 })),
            CacheEntity::Group => found_or_not(self.groups.get(&EntityKey { a: arguments[0], b: 0 })),
            CacheEntity::Guild => found_or_not(self.guilds.get(&EntityKey { a: arguments[0], b: 0 })),
            CacheEntity::Member => found_or_not(
                self.members.get(&EntityKey { a: arguments[0], b: arguments[1] }),
            ),
            CacheEntity::Message => found_or_not(
                self.messages.get(&EntityKey { a: arguments[0], b: arguments[1] }),
            ),
            CacheEntity::Presence => found_or_not(
                self.presences.get(&EntityKey { a: arguments[0], b: arguments[1] }),
            ),
            CacheEntity::PrivateChannel => found_or_not(
                self.private_channels.get(&EntityKey { a: arguments[0], b: 0 }),
            ),
            CacheEntity::Role => found_or_not(self.roles.get(&EntityKey { a: arguments[0], b: 0 })),
            CacheEntity::User => found_or_not(self.users.get(&EntityKey { a: arguments[0], b: 0 })),
            CacheEntity::VoiceChannelStates => self.voice_channel_states(arguments[0]),
            CacheEntity::VoiceState => {
                match self.voice_states.get(&EntityKey { a: arguments[0], b: arguments[1] }) {
                    Some(rec) => QueryOutcome::Found(clone_bytes(&rec.data)),
                    None => QueryOutcome::NotFound,
                }
            },
        }
    }

    /// The JSON array of the voice states in channel `c`, or absence
    /// when no one is in it.
    fn voice_channel_states(&self, c: u64) -> (r: QueryOutcome)
        requires
            self.wf(),
        ensures
            !(r is Malformed),
            (r is Found) <==> channel_states(self@.voice_states, c).len() > 0,
            r matches QueryOutcome::Found(b) ==> b@ == joined_array(
                channel_states(self@.voice_states, c),
            ),
    {
        let ghost s = self.voice_states.as_seq();
        let mut found: Vec<Vec<u8>> = Vec::new();
        let n = self.voice_states.len();
        let mut i: usize = 0;
        proof {
            assert(s.take(0) =~= Seq::<StoreEntry<VoiceRecord>>::empty());
            assert(byte_views(found@) =~= channel_states(s.take(0), c));
        }
        while i < n
            invariant
                i <= n,
                n == s.len(),
                s == self.voice_states.as_seq(),
                byte_views(found@) == channel_states(s.take(i as int), c),
            decreases n - i,
        {
            let e = self.voice_states.entry_at(i);
            let ghost before = found@;
            match e.value.channel_id {
                Some(ch) => {
                    if ch == c {
                        found.push(clone_bytes(&e.value.data));
                    }
                },
                None => {},
            }
            proof {
                assert(s.take(i as int + 1).drop_last() =~= s.take(i as int));
                assert(s.take(i as int + 1).last() == s[i as int]);
                assert(byte_views(found@) =~= channel_states(s.take(i as int + 1), c));
            }
            i = i + 1;
        }
        proof {
            assert(s.take(n as int) =~= s);
        }
        if found.len() == 0 {
            QueryOutcome::NotFound
        } else {
            let mut out: Vec<u8> = Vec::new();
            out.push(91);
            let mut j: usize = 0;
            proof {
                assert(out@ =~= seq![91u8] + join_inner(byte_views(found@.take(0))));
            }
            while j < found.len()
                invariant
                    j <= found@.len(),
                    byte_views(found@) == channel_states(s, c),
                    out@ == seq![91u8] + join_inner(byte_views(found@.take(j as int))),
                decreases found@.len() - j,
            {
                if j > 0 {
                    out.push(44);
                }
                out.extend_from_slice(found[j].as_slice());
                proof {
                    assert(byte_views(found@.take(j as int + 1)).drop_last() =~= byte_views(
                        found@.take(j as int),
                    ));
                    assert(byte_views(found@.take(j as int + 1)).last() == found@[j as int]@);
                    assert(out@ =~= seq![91u8] + join_inner(byte_views(found@.take(j as int + 1))));
                }
                j = j + 1;
            }
            out.push(93);
            proof {
                assert(found@.take(found@.len() as int) =~= found@);
                assert(out@ =~= joined_array(channel_states(s, c)));
            }
            QueryOutcome::Found(out)
        }
    }
}

/// Wraps a store lookup as a query outcome.
fn found_or_not(r: Option<&Vec<u8>>) -> (q: QueryOutcome)
    ensures
        q is Found <==> r is Some,
        q matches QueryOutcome::Found(b) ==> r matches Some(v) && b@ == v@,
        !(q is Malformed),
{
    match r {
        Some(v) => QueryOutcome::Found(clone_bytes(v)),
        None => QueryOutcome::NotFound,
    }
}

/// Update-then-query for messages: once a message-create event is
/// applied, the message query observes exactly the event's body.
pub proof fn lemma_message_update_then_query(
    v: CacheView,
    channel_id: u64,
    message_id: u64,
    data: Vec<u8>,
)
    ensures
        spec_lookup(
            apply_event(v, CacheEvent::MessageCreate { channel_id, message_id, data }),
            CacheEntity::Message,
            seq![channel_id, message_id],
        ) == Some(data@),
{
}

/// Update-then-query for guilds: once a guild-delete event is
/// applied, the guild query observes the absence.
pub proof fn lemma_guild_delete_then_query(v: CacheView, guild_id: u64)
    ensures
        spec_lookup(
            apply_event(v, CacheEvent::GuildDelete { guild_id }),
            CacheEntity::Guild,
            seq![guild_id],
        ) is None,
{
}

/// Update-then-query for presences: once a presence-update event is
/// applied, the presence query observes exactly the event's body.
pub proof fn lemma_presence_update_then_query(
    v: CacheView,
    guild_id: u64,
    user_id: u64,
    data: Vec<u8>,
)
    ensures
        spec_lookup(
            apply_event(v, CacheEvent::PresenceUpdate { guild_id, user_id, data }),
            CacheEntity::Presence,
            seq![guild_id, user_id],
        ) == Some(data@),
{
}

/// Update-then-query for voice states: once a voice-state update with
/// a channel is applied, the voice-state query observes exactly the
/// event's body.
pub proof fn lemma_voice_update_then_query(
    v: CacheView,
    guild_id: u64,
    user_id: u64,
    channel: u64,
    data: Vec<u8>,
)
    requires
        distinct_keys(v.voice_states),
    ensures
        spec_lookup(
            apply_event(
                v,
                CacheEvent::VoiceStateUpdate {
                    guild_id,
                    user_id,
                    channel_id: Some(channel),
                    data,
                },
            ),
            CacheEntity::VoiceState,
            seq![guild_id, user_id],
        ) == Some(data@),
{
    let k = key2(guild_id, user_id);
    let s = v.voice_states;
    let e = StoreEntry { key: k, value: VoiceRecord { channel_id: Some(channel), data } };
    lemma_find_index(s, k);
    if find_index(s, k) == -1 {
        lemma_map_push(s, e);
    } else {
        lemma_map_update(s, find_index(s, k), e);
    }
}

impl KeyedStore<Vec<u8>> {
    /// Inserts every `(id, body)` pair under its single-id key, in
    /// order.
    pub fn put_all_ids(&mut self, pairs: Vec<(u64, Vec<u8>)>)
        requires
            old(self).wf(),
        ensures
            final(self).wf(),
            final(self).as_map() == insert_ids(old(self).as_map(), pairs@),
    {
        let ghost orig = pairs@;
        let mut pairs = pairs;
        while pairs.len() > 0
            invariant
                self.wf(),
                insert_ids(old(self).as_map(), orig) == insert_ids(self.as_map(), pairs@),
            decreases pairs.len(),
        {
            let ghost before = pairs@;
            let (id, data) = pairs.remove(0);
            proof {
                assert(pairs@ =~= before.drop_first());
            }
            self.put(EntityKey { a: id, b: 0 }, data);
        }
    }

    /// Inserts every `(user id, body)` pair under its member key, in
    /// order.
    pub fn put_all_members(&mut self, guild_id: u64, pairs: Vec<(u64, Vec<u8>)>)
        requires
            old(self).wf(),
        ensures
            final(self).wf(),
            final(self).as_map() == insert_members(old(self).as_map(), guild_id, pairs@),
    {
        let ghost orig = pairs@;
        let mut pairs = pairs;
        while pairs.len() > 0
            invariant
                self.wf(),
                insert_members(old(self).as_map(), guild_id, orig) == insert_members(
                    self.as_map(),
                    guild_id,
                    pairs@,
                ),
            decreases pairs.len(),
        {
            let ghost before = pairs@;
            let (user_id, data) = pairs.remove(0);
            proof {
                assert(pairs@ =~= before.drop_first());
            }
            self.put(EntityKey { a: guild_id, b: user_id }, data);
        }
    }
}

} // verus!
