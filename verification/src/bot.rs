//! One bot: an account that is logged in, the connections to its plugins,
//! and its short-lived memory of who is what in which group.

use vstd::prelude::*;
use std::sync::Arc;
use crate::idl::pbbot::frame::Data;
use crate::native::GroupMemberPermission;
use crate::plugin::conn::{event_framed, ConnState, EventFrame, PluginConnection};
use crate::plugin::{
    clone_plugin, distinct_names, keep_last_by_name, kept_plugins, Plugin, PluginView,
};

pub mod bots;

verus! {

/// `cached::TimedCache`: a map whose entries expire. What it holds is known
/// only through `role_entries` and the counters beside it.
#[verifier::external_type_specification]
#[verifier::external_body]
#[verifier::reject_recursive_types(K)]
#[verifier::reject_recursive_types(V)]
pub struct ExTimedCache<K, V>(cached::TimedCache<K, V>);

/// The roles that a cache holds, under group and account number, whether
/// they have expired or not.
pub uninterp spec fn role_entries(
    cache: cached::TimedCache<(i64, i64), GroupMemberPermission>,
) -> Map<(i64, i64), GroupMemberPermission>;

/// How many lookups a cache has answered since its counters were last
/// reset.
pub uninterp spec fn role_hits(cache: cached::TimedCache<(i64, i64), GroupMemberPermission>) -> u64;

/// How many lookups a cache has failed to answer since its counters were
/// last reset.
pub uninterp spec fn role_misses(
    cache: cached::TimedCache<(i64, i64), GroupMemberPermission>,
) -> u64;

/// For how many seconds an entry of a cache is good.
pub uninterp spec fn role_lifespan(
    cache: cached::TimedCache<(i64, i64), GroupMemberPermission>,
) -> u64;

/// No roles at all.
pub open spec fn no_roles() -> Map<(i64, i64), GroupMemberPermission> {
    Map::empty()
}

/// `cached::TimedCache::with_lifespan`: an empty cache whose entries are
/// good for `seconds` seconds.
#[verifier::external_body]
fn cache_with_lifespan(seconds: u64) -> (cache: cached::TimedCache<
    (i64, i64),
    GroupMemberPermission,
>)
    ensures
        role_entries(cache) == no_roles(),
        role_hits(cache) == 0,
        role_misses(cache) == 0,
        role_lifespan(cache) == seconds,
{
    cached::TimedCache::with_lifespan(seconds)
}

/// `cached::Cached::cache_get` of `TimedCache`: the role under `key` if
/// the cache holds one that has not expired, which counts as a hit;
/// otherwise nothing, which counts as a miss and takes an expired entry out.
/// Whether an entry has expired depends on the clock.
#[verifier::external_body]
fn cache_get(
    cache: &mut cached::TimedCache<(i64, i64), GroupMemberPermission>,
    key: (i64, i64),
) -> (r: Option<GroupMemberPermission>)
    requires
        role_hits(*old(cache)) < u64::MAX,
        role_misses(*old(cache)) < u64::MAX,
    ensures
        role_lifespan(*final(cache)) == role_lifespan(*old(cache)),
        match r {
            Some(role) => role_entries(*old(cache)).contains_key(key) && role_entries(
                *old(cache),
            )[key] == role && role_entries(*final(cache)) == role_entries(*old(cache))
                && role_hits(*final(cache)) == role_hits(*old(cache)) + 1 && role_misses(
                *final(cache),
            ) == role_misses(*old(cache)),
            None => role_entries(*final(cache)) == role_entries(*old(cache)).remove(key)
                && role_hits(*final(cache)) == role_hits(*old(cache)) && role_misses(
                *final(cache),
            ) == role_misses(*old(cache)) + 1,
        },
{
    cached::Cached::cache_get(cache, &key).copied()
}

/// `cached::Cached::cache_set` of `TimedCache`: puts `role` under `key`,
/// fresh from now on, in place of what stood there.
#[verifier::external_body]
fn cache_set(
    cache: &mut cached::TimedCache<(i64, i64), GroupMemberPermission>,
    key: (i64, i64),
    role: GroupMemberPermission,
)
    ensures
        role_entries(*final(cache)) == role_entries(*old(cache)).insert(key, role),
        role_hits(*final(cache)) == role_hits(*old(cache)),
        role_misses(*final(cache)) == role_misses(*old(cache)),
        role_lifespan(*final(cache)) == role_lifespan(*old(cache)),
{
    cached::Cached::cache_set(cache, key, role);
}

/// `cached::Cached::cache_hits` of `TimedCache`: the number of hits.
#[verifier::external_body]
fn cache_hits(cache: &cached::TimedCache<(i64, i64), GroupMemberPermission>) -> (r: Option<u64>)
    ensures
        r == Some(role_hits(*cache)),
{
    cached::Cached::cache_hits(cache)
}

/// `cached::Cached::cache_misses` of `TimedCache`: the number of misses.
#[verifier::external_body]
fn cache_misses(cache: &cached::TimedCache<(i64, i64), GroupMemberPermission>) -> (r: Option<u64>)
    ensures
        r == Some(role_misses(*cache)),
{
    cached::Cached::cache_misses(cache)
}

/// `cached::TimedCache::flush`: takes the expired entries out. Which these
/// are depends on the clock; no entry is added or changed.
#[verifier::external_body]
fn cache_flush(cache: &mut cached::TimedCache<(i64, i64), GroupMemberPermission>)
    ensures
        role_entries(*final(cache)).submap_of(role_entries(*old(cache))),
        role_hits(*final(cache)) == role_hits(*old(cache)),
        role_misses(*final(cache)) == role_misses(*old(cache)),
        role_lifespan(*final(cache)) == role_lifespan(*old(cache)),
{
    cache.flush()
}

/// `cached::Cached::cache_reset_metrics` of `TimedCache`: sets both
/// counters to zero.
#[verifier::external_body]
fn cache_reset_metrics(cache: &mut cached::TimedCache<(i64, i64), GroupMemberPermission>)
    ensures
        role_entries(*final(cache)) == role_entries(*old(cache)),
        role_hits(*final(cache)) == 0,
        role_misses(*final(cache)) == 0,
        role_lifespan(*final(cache)) == role_lifespan(*old(cache)),
{
    cached::Cached::cache_reset_metrics(cache)
}

/// For how many seconds a role is remembered.
pub const ROLE_LIFESPAN_SECONDS: u64 = 30;

/// After how many misses the role cache is cleaned.
pub const ROLE_MISS_LIMIT: u64 = 100;

/// A bot: the account it runs as, one connection per plugin, whether it was
/// stopped, and the roles it remembers.
pub struct Bot {
    /// The account number, which also stands for the session with the chat
    /// service.
    pub uin: i64,
    /// One connection per plugin name.
    pub plugin_connections: Vec<PluginConnection>,
    pub stopped: bool,
    /// Roles of group members, under group and account number.
    pub group_role_cache: cached::TimedCache<(i64, i64), GroupMemberPermission>,
}

/// Whether `c` is a fresh connection for the plugin `p`: same name and
/// switch, the same addresses in some order, nothing counted yet.
pub open spec fn fresh_connection(c: PluginConnection, p: PluginView) -> bool {
    &&& c.plugin.name@ == p.name
    &&& c.plugin.disabled == p.disabled
    &&& c.plugin.urls.deep_view().to_multiset() == p.urls.to_multiset()
    &&& c.state == ConnState::Disconnected
    &&& c.url_index == 0
    &&& c.event_seq == 0
    &&& !c.stopped
}

/// The role of `user_id` according to a list of administrators: the one
/// the list gives it, or `Member`. The list stands for a map from account
/// numbers to roles that was filled in the order of the list, so of several
/// entries for one account the last counts.
pub open spec fn role_in(admins: Seq<(i64, GroupMemberPermission)>, user_id: i64)
    -> GroupMemberPermission
    decreases admins.len(),
{
    if admins.len() == 0 {
        GroupMemberPermission::Member
    } else if admins.last().0 == user_id {
        admins.last().1
    } else {
        role_in(admins.drop_last(), user_id)
    }
}

/// A role that a list of administrators gives an account is the role that
/// a cache holds for it once the list was put in.
pub proof fn lemma_stored_role(
    entries: Map<(i64, i64), GroupMemberPermission>,
    group_id: i64,
    admins: Seq<(i64, GroupMemberPermission)>,
    user_id: i64,
)
    ensures
        (exists|i: int| 0 <= i < admins.len() && admins[i].0 == user_id) ==> with_admins(
            entries,
            group_id,
            admins,
        ).contains_key((group_id, user_id)) && with_admins(entries, group_id, admins)[(
            group_id,
            user_id,
        )] == role_in(admins, user_id),
    decreases admins.len(),
{
    if admins.len() > 0 {
        lemma_stored_role(entries, group_id, admins.drop_last(), user_id);
        if admins.last().0 != user_id {
            if exists|i: int| 0 <= i < admins.len() && admins[i].0 == user_id {
                let i = choose|i: int| 0 <= i < admins.len() && admins[i].0 == user_id;
                assert(admins.drop_last()[i].0 == user_id);
            }
        }
    }
}

/// The roles of a cache after those of `admins` in `group_id` were put in,
/// one after the other.
pub open spec fn with_admins(
    entries: Map<(i64, i64), GroupMemberPermission>,
    group_id: i64,
    admins: Seq<(i64, GroupMemberPermission)>,
) -> Map<(i64, i64), GroupMemberPermission>
    decreases admins.len(),
{
    if admins.len() == 0 {
        entries
    } else {
        with_admins(entries, group_id, admins.drop_last()).insert(
            (group_id, admins.last().0),
            admins.last().1,
        )
    }
}

/// Whether `bot` is a bot as it is made for the account `uin` and the
/// plugins `plugins`: not stopped, with one fresh connection for each plugin
/// that no later plugin of the same name supersedes, in their order, and
/// with an empty role cache that keeps a role for thirty seconds.
pub open spec fn fresh_bot(bot: Bot, uin: i64, plugins: Seq<PluginView>) -> bool {
    &&& bot.uin == uin
    &&& !bot.stopped
    &&& bot.plugin_connections@.len() == kept_plugins(plugins, plugins.len() as int).len()
    &&& forall|k: int|
        0 <= k < bot.plugin_connections@.len() ==> fresh_connection(
            #[trigger] bot.plugin_connections@[k],
            kept_plugins(plugins, plugins.len() as int)[k],
        )
    &&& bot.wf()
    &&& role_entries(bot.group_role_cache) == no_roles()
    &&& role_hits(bot.group_role_cache) == 0
    &&& role_misses(bot.group_role_cache) == 0
    &&& role_lifespan(bot.group_role_cache) == ROLE_LIFESPAN_SECONDS
}

/// Whether `after` is `before`, stopped: the bot and each of its
/// connections is marked as stopped, and nothing else has changed.
pub open spec fn stopped_from(before: Bot, after: Bot) -> bool {
    &&& after.stopped
    &&& after.uin == before.uin
    &&& after.group_role_cache == before.group_role_cache
    &&& after.plugin_connections@.len() == before.plugin_connections@.len()
    &&& forall|k: int|
        0 <= k < before.plugin_connections@.len() ==> {
            let was = before.plugin_connections@[k];
            let is = #[trigger] after.plugin_connections@[k];
            is.stopped && is.plugin == was.plugin && is.state == was.state && is.url_index
                == was.url_index && is.event_seq == was.event_seq
        }
}

/// Stopping a stopped bot changes nothing: what stopping makes of it is
/// what stopping made of the bot before.
pub proof fn lemma_stop_is_idempotent(before: Bot, once: Bot, twice: Bot)
    requires
        stopped_from(before, once),
        stopped_from(once, twice),
    ensures
        stopped_from(before, twice),
        twice.stopped == once.stopped,
        twice.uin == once.uin,
        twice.group_role_cache == once.group_role_cache,
        forall|k: int|
            0 <= k < once.plugin_connections@.len() ==> {
                let a = once.plugin_connections@[k];
                let b = #[trigger] twice.plugin_connections@[k];
                b.stopped == a.stopped && b.plugin == a.plugin && b.state == a.state
                    && b.url_index == a.url_index && b.event_seq == a.event_seq
            },
{
    assert forall|k: int| 0 <= k < before.plugin_connections@.len() implies {
        let was = before.plugin_connections@[k];
        let is = #[trigger] twice.plugin_connections@[k];
        is.stopped && is.plugin == was.plugin && is.state == was.state && is.url_index
            == was.url_index && is.event_seq == was.event_seq
    } by {
        let mid = once.plugin_connections@[k];
        assert(mid.stopped);
    }
}

/// Whether the counters of a role cache can still count.
pub open spec fn counting(cache: cached::TimedCache<(i64, i64), GroupMemberPermission>) -> bool {
    role_hits(cache) < u64::MAX && role_misses(cache) < u64::MAX
}

/// What a lookup under `key` makes of a role cache, where `answered` says
/// whether it gave a role. A cache whose counters cannot count any further
/// is left alone and gives none. Otherwise an answer comes from an entry
/// that the cache holds, leaves the entries as they are and counts as a
/// hit; no answer counts as a miss and leaves no entry under the key. The
/// lifespan stays.
pub open spec fn looked_up(
    before: cached::TimedCache<(i64, i64), GroupMemberPermission>,
    after: cached::TimedCache<(i64, i64), GroupMemberPermission>,
    key: (i64, i64),
    answered: bool,
) -> bool {
    &&& role_lifespan(after) == role_lifespan(before)
    &&& if !counting(before) {
        !answered && after == before
    } else if answered {
        &&& role_entries(before).contains_key(key)
        &&& role_entries(after) == role_entries(before)
        &&& role_hits(after) == role_hits(before) + 1
        &&& role_misses(after) == role_misses(before)
    } else {
        &&& role_entries(after) == role_entries(before).remove(key)
        &&& role_hits(after) == role_hits(before)
        &&& role_misses(after) == role_misses(before) + 1
    }
}

/// What storing the administrators `admins` of `group_id` makes of a role
/// cache: each is put in, one after the other. After more than a hundred
/// misses the cache is then cleaned, which takes entries out but adds none,
/// and both counters start again from zero; otherwise the counters stay.
/// The lifespan stays.
pub open spec fn admins_stored(
    before: cached::TimedCache<(i64, i64), GroupMemberPermission>,
    after: cached::TimedCache<(i64, i64), GroupMemberPermission>,
    group_id: i64,
    admins: Seq<(i64, GroupMemberPermission)>,
) -> bool {
    &&& role_lifespan(after) == role_lifespan(before)
    &&& if role_misses(before) > ROLE_MISS_LIMIT {
        &&& role_entries(after).submap_of(with_admins(role_entries(before), group_id, admins))
        &&& role_misses(after) == 0
        &&& role_hits(after) == 0
    } else {
        &&& role_entries(after) == with_admins(role_entries(before), group_id, admins)
        &&& role_misses(after) == role_misses(before)
        &&& role_hits(after) == role_hits(before)
    }
}

impl Bot {
    /// Whether the bot is well formed: its connections stand for a map from
    /// plugin names to connections, so no two of them have the same name.
    pub open spec fn wf(&self) -> bool {
        forall|a: int, b: int|
            0 <= a < b < self.plugin_connections@.len() ==> (
            #[trigger] self.plugin_connections@[a]).plugin.name@ != (
            #[trigger] self.plugin_connections@[b]).plugin.name@
    }

    /// Whether the counters of the role cache can still count.
    pub open spec fn can_count(&self) -> bool {
        counting(self.group_role_cache)
    }

    /// A bot for the account `uin` with a fresh connection to each plugin.
    /// Where several plugins share a name, the last of them counts. The
    /// role cache is empty and keeps a role for thirty seconds.
    pub fn new(uin: i64, plugins: Vec<Plugin>) -> (bot: Self)
        ensures
            fresh_bot(bot, uin, plugins.deep_view()),
    {
        let kept = keep_last_by_name(&plugins);
        let ghost views = kept.deep_view();
        let mut connections: Vec<PluginConnection> = Vec::new();
        let mut i: usize = 0;
        while i < kept.len()
            invariant
                i <= kept@.len(),
                views == kept.deep_view(),
                connections@.len() == i,
                forall|k: int|
                    0 <= k < i ==> fresh_connection(#[trigger] connections@[k], views[k]),
            decreases kept@.len() - i,
        {
            let c = PluginConnection::new(clone_plugin(&kept[i]));
            connections.push(c);
            i = i + 1;
        }
        let bot = Bot {
            uin,
            plugin_connections: connections,
            stopped: false,
            group_role_cache: cache_with_lifespan(ROLE_LIFESPAN_SECONDS),
        };
        proof {
            assert forall|a: int, b: int| 0 <= a < b < bot.plugin_connections@.len() implies (
            #[trigger] bot.plugin_connections@[a]).plugin.name@ != (
            #[trigger] bot.plugin_connections@[b]).plugin.name@ by {
                assert(fresh_connection(bot.plugin_connections@[a], views[a]));
                assert(fresh_connection(bot.plugin_connections@[b], views[b]));
                assert(views[a].name != views[b].name);
            }
        }
        bot
    }

    /// Stops the bot and every connection to a plugin. Stopping a stopped
    /// bot changes nothing.
    pub fn stop(&mut self)
        ensures
            stopped_from(*old(self), *final(self)),
            old(self).wf() ==> final(self).wf(),
    {
        self.stopped = true;
        let mut i: usize = 0;
        while i < self.plugin_connections.len()
            invariant
                i <= self.plugin_connections@.len(),
                self.stopped,
                self.uin == old(self).uin,
                self.group_role_cache == old(self).group_role_cache,
                self.plugin_connections@.len() == old(self).plugin_connections@.len(),
                forall|k: int|
                    0 <= k < i ==> {
                        let before = old(self).plugin_connections@[k];
                        let after = #[trigger] self.plugin_connections@[k];
                        after.stopped && after.plugin == before.plugin && after.state
                            == before.state && after.url_index == before.url_index
                            && after.event_seq == before.event_seq
                    },
                forall|k: int|
                    i <= k < self.plugin_connections@.len() ==> #[trigger] self.plugin_connections@[k]
                        == old(self).plugin_connections@[k],
            decreases self.plugin_connections@.len() - i,
        {
            self.plugin_connections[i].stop();
            i = i + 1;
        }
    }

    /// Frames an event for every plugin of the bot: one frame for each
    /// connection, in the order of the connections, each with the echo of its
    /// own connection, all with the bot's account number and the same
    /// payload.
    pub fn handle_event(&mut self, event: Data) -> (frames: Vec<EventFrame>)
        ensures
            final(self).uin == old(self).uin,
            final(self).stopped == old(self).stopped,
            final(self).group_role_cache == old(self).group_role_cache,
            final(self).plugin_connections@.len() == old(self).plugin_connections@.len(),
            old(self).wf() ==> final(self).wf(),
            frames@.len() == old(self).plugin_connections@.len(),
            forall|k: int|
                0 <= k < frames@.len() ==> event_framed(
                    old(self).plugin_connections@[k],
                    final(self).plugin_connections@[k],
                    old(self).uin,
                    event,
                    #[trigger] frames@[k],
                ),
    {
        let shared = Arc::new(event);
        let mut frames: Vec<EventFrame> = Vec::new();
        let uin = self.uin;
        let mut i: usize = 0;
        while i < self.plugin_connections.len()
            invariant
                i <= self.plugin_connections@.len(),
                *shared == event,
                uin == old(self).uin,
                self.uin == old(self).uin,
                self.stopped == old(self).stopped,
                self.group_role_cache == old(self).group_role_cache,
                self.plugin_connections@.len() == old(self).plugin_connections@.len(),
                frames@.len() == i,
                forall|k: int|
                    0 <= k < i ==> event_framed(
                        old(self).plugin_connections@[k],
                        self.plugin_connections@[k],
                        old(self).uin,
                        event,
                        #[trigger] frames@[k],
                    ),
                forall|k: int|
                    i <= k < self.plugin_connections@.len() ==> #[trigger] self.plugin_connections@[k]
                        == old(self).plugin_connections@[k],
            decreases self.plugin_connections@.len() - i,
        {
            let frame = self.plugin_connections[i].frame_event(uin, &shared);
            frames.push(frame);
            i = i + 1;
        }
        proof {
            if old(self).wf() {
                assert forall|a: int, b: int|
                    0 <= a < b < self.plugin_connections@.len() implies (
                #[trigger] self.plugin_connections@[a]).plugin.name@ != (
                #[trigger] self.plugin_connections@[b]).plugin.name@ by {
                    assert(event_framed(
                        old(self).plugin_connections@[a],
                        self.plugin_connections@[a],
                        old(self).uin,
                        event,
                        frames@[a],
                    ));
                    assert(event_framed(
                        old(self).plugin_connections@[b],
                        self.plugin_connections@[b],
                        old(self).uin,
                        event,
                        frames@[b],
                    ));
                }
            }
        }
        frames
    }

    /// Looks the role of `user_id` in `group_id` up in the cache. `Some`
    /// only for a role that the cache holds; `None` where it holds none or
    /// only an expired one, which is then gone from the cache.
    pub fn lookup_group_role(&mut self, group_id: i64, user_id: i64) -> (r: Option<
        GroupMemberPermission,
    >)
        requires
            old(self).can_count(),
        ensures
            final(self).uin == old(self).uin,
            final(self).stopped == old(self).stopped,
            final(self).plugin_connections == old(self).plugin_connections,
            role_lifespan(final(self).group_role_cache) == role_lifespan(
                old(self).group_role_cache,
            ),
            match r {
                Some(role) => {
                    &&& role_entries(old(self).group_role_cache).contains_key((group_id, user_id))
                    &&& role_entries(old(self).group_role_cache)[(group_id, user_id)] == role
                    &&& role_entries(final(self).group_role_cache) == role_entries(
                        old(self).group_role_cache,
                    )
                    &&& role_misses(final(self).group_role_cache) == role_misses(
                        old(self).group_role_cache,
                    )
                    &&& role_hits(final(self).group_role_cache) == role_hits(
                        old(self).group_role_cache,
                    ) + 1
                },
                None => {
                    &&& role_entries(final(self).group_role_cache) == role_entries(
                        old(self).group_role_cache,
                    ).remove((group_id, user_id))
                    &&& role_misses(final(self).group_role_cache) == role_misses(
                        old(self).group_role_cache,
                    ) + 1
                    &&& role_hits(final(self).group_role_cache) == role_hits(
                        old(self).group_role_cache,
                    )
                },
            },
    {
        cache_get(&mut self.group_role_cache, (group_id, user_id))
    }

    /// The role of `user_id` in `group_id` as far as the bot remembers it.
    /// `None` means that the list of administrators of the group has to be
    /// fetched and handed to `store_group_admins`. Where the counters of the
    /// cache cannot count any further, the cache is left alone and the
    /// answer is `None`.
    pub fn cached_group_role(&mut self, group_id: i64, user_id: i64) -> (r: Option<
        GroupMemberPermission,
    >)
        ensures
            final(self).uin == old(self).uin,
            final(self).stopped == old(self).stopped,
            final(self).plugin_connections == old(self).plugin_connections,
            looked_up(
                old(self).group_role_cache,
                final(self).group_role_cache,
                (group_id, user_id),
                r is Some,
            ),
            !old(self).can_count() ==> r is None,
            r matches Some(role) ==> role_entries(old(self).group_role_cache)[(group_id, user_id)]
                == role,
    {
        let hits = cache_hits(&self.group_role_cache);
        let misses = cache_misses(&self.group_role_cache);
        match (hits, misses) {
            (Some(h), Some(m)) => {
                if h < u64::MAX && m < u64::MAX {
                    self.lookup_group_role(group_id, user_id)
                } else {
                    None
                }
            },
            _ => None,
        }
    }

    /// Remembers the administrators of `group_id` and gives the role of
    /// `user_id`: the one the list gives it, or `Member`. After more than a
    /// hundred misses the cache is cleaned of expired roles and its counters
    /// start again from zero.
    pub fn store_group_admins(
        &mut self,
        group_id: i64,
        user_id: i64,
        admins: &Vec<(i64, GroupMemberPermission)>,
    ) -> (role: GroupMemberPermission)
        ensures
            role == role_in(admins@, user_id),
            final(self).uin == old(self).uin,
            final(self).stopped == old(self).stopped,
            final(self).plugin_connections == old(self).plugin_connections,
            admins_stored(
                old(self).group_role_cache,
                final(self).group_role_cache,
                group_id,
                admins@,
            ),
    {
        let role = find_role(admins, user_id);
        let mut i: usize = 0;
        while i < admins.len()
            invariant
                i <= admins@.len(),
                self.uin == old(self).uin,
                self.stopped == old(self).stopped,
                self.plugin_connections == old(self).plugin_connections,
                role_lifespan(self.group_role_cache) == role_lifespan(old(self).group_role_cache),
                role_hits(self.group_role_cache) == role_hits(old(self).group_role_cache),
                role_misses(self.group_role_cache) == role_misses(old(self).group_role_cache),
                role_entries(self.group_role_cache) == with_admins(
                    role_entries(old(self).group_role_cache),
                    group_id,
                    admins@.take(i as int),
                ),
            decreases admins@.len() - i,
        {
            let (uin, permission) = admins[i];
            cache_set(&mut self.group_role_cache, (group_id, uin), permission);
            proof {
                let next = admins@.take(i + 1);
                assert(next.last() == admins@[i as int]);
                assert(next.drop_last() =~= admins@.take(i as int));
            }
            i = i + 1;
        }
        proof {
            assert(admins@.take(i as int) =~= admins@);
        }
        let misses: u64 = match cache_misses(&self.group_role_cache) {
            Some(m) => m,
            None => 0,
        };
        if misses > ROLE_MISS_LIMIT {
            cache_flush(&mut self.group_role_cache);
            cache_reset_metrics(&mut self.group_role_cache);
        }
        role
    }
}

/// The role that `admins` gives `user_id`, or `Member`.
fn find_role(admins: &Vec<(i64, GroupMemberPermission)>, user_id: i64) -> (role:
    GroupMemberPermission)
    ensures
        role == role_in(admins@, user_id),
{
    let mut role = GroupMemberPermission::Member;
    let mut i: usize = 0;
    while i < admins.len()
        invariant
            i <= admins@.len(),
            role == role_in(admins@.take(i as int), user_id),
        decreases admins@.len() - i,
    {
        proof {
            let next = admins@.take(i + 1);
            assert(next.last() == admins@[i as int]);
            assert(next.drop_last() =~= admins@.take(i as int));
        }
        if admins[i].0 == user_id {
            role = admins[i].1;
        }
        i = i + 1;
    }
    proof {
        assert(admins@.take(i as int) =~= admins@);
    }
    role
}

} // verus!
