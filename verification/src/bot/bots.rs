//! The bots that are logged in, by account number.

use vstd::prelude::*;
use crate::bot::{fresh_bot, stopped_from, Bot};
use crate::plugin::Plugin;

verus! {

/// `dashmap::DashMap`: a hash map. What one of its kinds holds is known
/// only through the function that names its content.
#[verifier::external_type_specification]
#[verifier::external_body]
#[verifier::reject_recursive_types(K)]
#[verifier::reject_recursive_types(V)]
#[verifier::reject_recursive_types(S)]
pub struct ExDashMap<K, V, S>(dashmap::DashMap<K, V, S>);

/// The bots that a map holds, under their account numbers.
pub uninterp spec fn registered(bots: dashmap::DashMap<i64, Bot>) -> Map<i64, Bot>;

/// No bots at all.
pub open spec fn no_bots() -> Map<i64, Bot> {
    Map::empty()
}

/// `dashmap::DashMap::new`: an empty map.
#[verifier::external_body]
fn map_new() -> (bots: dashmap::DashMap<i64, Bot>)
    ensures
        registered(bots) == no_bots(),
{
    dashmap::DashMap::new()
}

/// `dashmap::DashMap::insert`: puts `bot` under `uin` and hands out what
/// stood there before, if anything.
#[verifier::external_body]
fn map_insert(bots: &mut dashmap::DashMap<i64, Bot>, uin: i64, bot: Bot) -> (prior: Option<Bot>)
    ensures
        registered(*final(bots)) == registered(*old(bots)).insert(uin, bot),
        prior == if registered(*old(bots)).contains_key(uin) {
            Some(registered(*old(bots))[uin])
        } else {
            None
        },
{
    bots.insert(uin, bot)
}

/// `dashmap::DashMap::remove`: takes out what stands under `uin` and hands
/// it out, if there is anything.
#[verifier::external_body]
fn map_remove(bots: &mut dashmap::DashMap<i64, Bot>, uin: i64) -> (prior: Option<Bot>)
    ensures
        registered(*final(bots)) == registered(*old(bots)).remove(uin),
        prior == if registered(*old(bots)).contains_key(uin) {
            Some(registered(*old(bots))[uin])
        } else {
            None
        },
{
    bots.remove(&uin).map(|entry| entry.1)
}

/// `dashmap::DashMap::contains_key`: whether the map holds something
/// under `uin`.
#[verifier::external_body]
fn map_contains(bots: &dashmap::DashMap<i64, Bot>, uin: i64) -> (b: bool)
    ensures
        b == registered(*bots).contains_key(uin),
{
    bots.contains_key(&uin)
}

/// `dashmap::DashMap::iter`: the account numbers under which the map holds
/// a bot, each once, in no particular order.
#[verifier::external_body]
fn map_keys(bots: &dashmap::DashMap<i64, Bot>) -> (uins: Vec<i64>)
    ensures
        uins@.no_duplicates(),
        uins@.to_set() == registered(*bots).dom(),
{
    bots.iter().map(|entry| *entry.key()).collect()
}

/// What an administrator sees of a bot.
#[derive(Clone, Debug, PartialEq, Eq, Default)]
pub struct BotInfo {
    pub uin: i64,
    pub nick: String,
    pub status: u8,
}

/// How the session of a bot is kept alive: after the connection was lost,
/// up to `max_attempts` logins are tried, `interval_seconds` apart.
#[derive(Clone, Copy, Debug, PartialEq, Eq, Structural)]
pub struct Reconnect {
    pub interval_seconds: u64,
    pub max_attempts: usize,
}

/// How long to wait between two attempts to log a lost session in again.
pub const RECONNECT_INTERVAL_SECONDS: u64 = 10;

/// After how many failed attempts in a row a lost session is given up.
pub const RECONNECT_MAX_ATTEMPTS: usize = 10;

/// What is to be done once a login has made a bot: the bot that stood under
/// the same account number, stopped, is to be let go of; the connections of
/// the new bot and its event loop are to be started; the session is to be
/// watched as `reconnect` says.
pub struct Promotion {
    pub displaced: Option<Bot>,
    pub reconnect: Reconnect,
}

/// All bots that are logged in. Under one account number stands at most one
/// bot.
pub struct Bots {
    bots: dashmap::DashMap<i64, Bot>,
}

impl View for Bots {
    type V = Map<i64, Bot>;

    closed spec fn view(&self) -> Map<i64, Bot> {
        registered(self.bots)
    }
}

impl Bots {
    /// No bots.
    pub fn new() -> (bots: Self)
        ensures
            bots@ == no_bots(),
    {
        Bots { bots: map_new() }
    }

    /// Makes a bot for the account `uin` that has just logged in, with a
    /// connection for each of `plugins`, and puts it in the place of the bot
    /// that stood under `uin` before. That one is stopped and handed out.
    pub fn on_login(&mut self, uin: i64, plugins: Vec<Plugin>) -> (p: Promotion)
        ensures
            final(self)@.dom() == old(self)@.dom().insert(uin),
            forall|other: i64| other != uin && old(self)@.contains_key(other) ==> final(self)@[other]
                == old(self)@[other],
            fresh_bot(final(self)@[uin], uin, plugins.deep_view()),
            p.displaced is Some == old(self)@.contains_key(uin),
            p.displaced matches Some(bot) ==> stopped_from(old(self)@[uin], bot),
            p.reconnect == (Reconnect {
                interval_seconds: RECONNECT_INTERVAL_SECONDS,
                max_attempts: RECONNECT_MAX_ATTEMPTS,
            }),
    {
        let bot = Bot::new(uin, plugins);
        let displaced = match map_insert(&mut self.bots, uin, bot) {
            Some(mut prior) => {
                prior.stop();
                Some(prior)
            },
            None => None,
        };
        proof {
            assert(self@.dom() =~= old(self)@.dom().insert(uin));
        }
        Promotion {
            displaced,
            reconnect: Reconnect {
                interval_seconds: RECONNECT_INTERVAL_SECONDS,
                max_attempts: RECONNECT_MAX_ATTEMPTS,
            },
        }
    }

    /// Takes the bot of the account `uin` out, stops it and hands it out.
    /// Afterwards no bot stands under `uin`.
    pub fn delete_bot(&mut self, uin: i64) -> (removed: Option<Bot>)
        ensures
            final(self)@ == old(self)@.remove(uin),
            !final(self)@.contains_key(uin),
            removed is Some == old(self)@.contains_key(uin),
            removed matches Some(bot) ==> stopped_from(old(self)@[uin], bot),
    {
        match map_remove(&mut self.bots, uin) {
            Some(mut bot) => {
                bot.stop();
                Some(bot)
            },
            None => None,
        }
    }

    /// Takes the bot of the account `uin` out, as it is, to work on it.
    pub fn take(&mut self, uin: i64) -> (bot: Option<Bot>)
        ensures
            final(self)@ == old(self)@.remove(uin),
            bot == if old(self)@.contains_key(uin) {
                Some(old(self)@[uin])
            } else {
                None
            },
    {
        map_remove(&mut self.bots, uin)
    }

    /// Puts a bot back under its account number, provided that no other
    /// bot has taken its place meanwhile; otherwise hands it back.
    pub fn put_back(&mut self, bot: Bot) -> (rejected: Option<Bot>)
        ensures
            if old(self)@.contains_key(bot.uin) {
                rejected == Some(bot) && final(self)@ == old(self)@
            } else {
                rejected is None && final(self)@ == old(self)@.insert(bot.uin, bot)
            },
    {
        let uin = bot.uin;
        if map_contains(&self.bots, uin) {
            Some(bot)
        } else {
            map_insert(&mut self.bots, uin, bot);
            None
        }
    }

    /// Whether a bot stands under the account number `uin`.
    pub fn contains(&self, uin: i64) -> (b: bool)
        ensures
            b == self@.contains_key(uin),
    {
        map_contains(&self.bots, uin)
    }

    /// The account numbers of all bots, each once.
    pub fn list_bot(&self) -> (uins: Vec<i64>)
        ensures
            uins@.no_duplicates(),
            forall|uin: i64| uins@.contains(uin) <==> self@.contains_key(uin),
    {
        let uins = map_keys(&self.bots);
        proof {
            assert forall|uin: i64| uins@.contains(uin) <==> self@.contains_key(uin) by {
                assert(uins@.to_set().contains(uin) <==> uins@.contains(uin));
            }
        }
        uins
    }
}

} // verus!
