use cached::Cached;
use pbrq::bot::bots::{BotInfo, Bots, Reconnect};
use pbrq::bot::Bot;
use pbrq::handler::bot::{delete, list, DeleteBotReq};
use pbrq::native::GroupMemberPermission;
use pbrq::plugin::Plugin;

fn plugin(name: &str, url: &str) -> Plugin {
    Plugin { name: name.to_string(), disabled: false, urls: vec![url.to_string()] }
}

#[test]
fn new_bot() {
    let bot = Bot::new(42, vec![plugin("a", "ws://a/"), plugin("b", "ws://b/")]);
    assert_eq!(bot.uin, 42);
    assert!(!bot.stopped);
    let names: Vec<&str> = bot.plugin_connections.iter().map(|c| c.plugin.name.as_str()).collect();
    assert_eq!(names, vec!["a", "b"]);
    for c in &bot.plugin_connections {
        assert_eq!((c.url_index, c.event_seq, c.stopped), (0, 0, false));
    }
    assert_eq!(bot.group_role_cache.cache_lifespan(), Some(30));
    assert_eq!(bot.group_role_cache.cache_size(), 0);
    assert_eq!(bot.group_role_cache.cache_misses(), Some(0));
    assert_eq!(bot.group_role_cache.cache_hits(), Some(0));
}

#[test]
fn plugin_names_are_deduplicated_and_the_last_counts() {
    let bot = Bot::new(
        42,
        vec![
            plugin("a", "ws://first/"),
            plugin("b", "ws://b/"),
            plugin("a", "ws://second/"),
            plugin("c", "ws://c/"),
            plugin("a", "ws://third/"),
        ],
    );
    let seen: Vec<(&str, &str)> = bot
        .plugin_connections
        .iter()
        .map(|c| (c.plugin.name.as_str(), c.plugin.urls[0].as_str()))
        .collect();
    assert_eq!(seen, vec![("b", "ws://b/"), ("c", "ws://c/"), ("a", "ws://third/")]);
}

#[test]
fn stop_is_idempotent() {
    let mut bot = Bot::new(42, vec![plugin("a", "ws://a/"), plugin("b", "ws://b/")]);
    bot.plugin_connections[0].url_index = 3;
    bot.plugin_connections[1].event_seq = 4;
    bot.stop();
    assert!(bot.stopped);
    assert!(bot.plugin_connections.iter().all(|c| c.stopped));
    bot.stop();
    assert!(bot.stopped);
    assert!(bot.plugin_connections.iter().all(|c| c.stopped));
    assert_eq!(bot.plugin_connections.len(), 2);
    assert_eq!(bot.plugin_connections[0].url_index, 3);
    assert_eq!(bot.plugin_connections[1].event_seq, 4);
    assert_eq!(bot.uin, 42);
}

#[test]
fn role_cache_answers_after_store() {
    let mut bot = Bot::new(42, vec![]);
    assert_eq!(bot.cached_group_role(7, 9), None);
    assert_eq!(bot.group_role_cache.cache_misses(), Some(1));
    let admins = vec![(8, GroupMemberPermission::Owner), (9, GroupMemberPermission::Administrator)];
    assert_eq!(bot.store_group_admins(7, 9, &admins), GroupMemberPermission::Administrator);
    assert_eq!(bot.cached_group_role(7, 9), Some(GroupMemberPermission::Administrator));
    assert_eq!(bot.cached_group_role(7, 8), Some(GroupMemberPermission::Owner));
    assert_eq!(bot.cached_group_role(7, 10), None);
    assert_eq!(bot.cached_group_role(6, 9), None);
    assert_eq!(bot.group_role_cache.cache_hits(), Some(2));
    assert_eq!(bot.group_role_cache.cache_misses(), Some(3));
    assert_eq!(bot.lookup_group_role(7, 8), Some(GroupMemberPermission::Owner));
}

#[test]
fn role_defaults_to_member() {
    let mut bot = Bot::new(42, vec![]);
    let admins = vec![(8, GroupMemberPermission::Owner)];
    assert_eq!(bot.store_group_admins(7, 9, &admins), GroupMemberPermission::Member);
    assert_eq!(bot.store_group_admins(7, 9, &vec![]), GroupMemberPermission::Member);
    assert_eq!(bot.cached_group_role(7, 9), None);
}

#[test]
fn role_of_last_entry_counts() {
    let mut bot = Bot::new(42, vec![]);
    let admins = vec![(9, GroupMemberPermission::Owner), (9, GroupMemberPermission::Administrator)];
    assert_eq!(bot.store_group_admins(7, 9, &admins), GroupMemberPermission::Administrator);
    // the cache holds what the list gave
    assert_eq!(bot.cached_group_role(7, 9), Some(GroupMemberPermission::Administrator));
}

#[test]
fn role_cache_is_cleaned_after_more_than_a_hundred_misses() {
    let mut bot = Bot::new(42, vec![]);
    for user in 0..100 {
        assert_eq!(bot.cached_group_role(7, user), None);
    }
    assert_eq!(bot.group_role_cache.cache_misses(), Some(100));
    bot.store_group_admins(7, 1, &vec![(1, GroupMemberPermission::Owner)]);
    // exactly a hundred misses are not yet too many
    assert_eq!(bot.group_role_cache.cache_misses(), Some(100));
    assert_eq!(bot.cached_group_role(7, 1000), None);
    assert_eq!(bot.group_role_cache.cache_misses(), Some(101));
    bot.store_group_admins(7, 2, &vec![(2, GroupMemberPermission::Administrator)]);
    assert_eq!(bot.group_role_cache.cache_misses(), Some(0));
    assert_eq!(bot.group_role_cache.cache_hits(), Some(0));
    // what is fresh stays
    assert_eq!(bot.cached_group_role(7, 1), Some(GroupMemberPermission::Owner));
    assert_eq!(bot.cached_group_role(7, 2), Some(GroupMemberPermission::Administrator));
}

#[test]
fn role_cache_forgets_after_its_lifespan() {
    let mut bot = Bot::new(42, vec![]);
    bot.group_role_cache.cache_set_lifespan(0);
    bot.store_group_admins(7, 9, &vec![(9, GroupMemberPermission::Owner)]);
    assert_eq!(bot.cached_group_role(7, 9), None);
    assert_eq!(bot.group_role_cache.cache_size(), 0);
}

#[test]
fn registry_holds_one_bot_per_account() {
    let mut bots = Bots::new();
    assert!(bots.list_bot().is_empty());
    let p = bots.on_login(42, vec![plugin("a", "ws://a/")]);
    assert!(p.displaced.is_none());
    assert_eq!(p.reconnect, Reconnect { interval_seconds: 10, max_attempts: 10 });
    let p = bots.on_login(43, vec![]);
    assert!(p.displaced.is_none());
    let mut uins = bots.list_bot();
    uins.sort();
    assert_eq!(uins, vec![42, 43]);

    let p = bots.on_login(42, vec![]);
    let displaced = p.displaced.unwrap();
    assert_eq!(displaced.uin, 42);
    assert!(displaced.stopped);
    assert_eq!(displaced.plugin_connections.len(), 1);
    assert!(displaced.plugin_connections[0].stopped);
    let mut uins = bots.list_bot();
    uins.sort();
    assert_eq!(uins, vec![42, 43]);
    let fresh = bots.take(42).unwrap();
    assert!(!fresh.stopped);
    assert!(fresh.plugin_connections.is_empty());
}

#[test]
fn delete_leaves_no_bot_behind() {
    let mut bots = Bots::new();
    bots.on_login(42, vec![plugin("a", "ws://a/")]);
    bots.on_login(43, vec![]);
    let removed = bots.delete_bot(42).unwrap();
    assert!(removed.stopped);
    assert_eq!(removed.uin, 42);
    assert_eq!(bots.list_bot(), vec![43]);
    assert!(bots.delete_bot(42).is_none());
    assert_eq!(bots.list_bot(), vec![43]);
    // the account can log in again
    assert!(bots.on_login(42, vec![]).displaced.is_none());
    assert_eq!(bots.list_bot().len(), 2);
}

#[test]
fn take_and_put_back() {
    let mut bots = Bots::new();
    bots.on_login(42, vec![plugin("a", "ws://a/")]);
    let mut bot = bots.take(42).unwrap();
    assert!(bots.list_bot().is_empty());
    assert!(bots.take(42).is_none());
    bot.plugin_connections[0].event_seq = 5;
    assert!(bots.put_back(bot).is_none());
    assert_eq!(bots.list_bot(), vec![42]);
    assert_eq!(bots.take(42).unwrap().plugin_connections[0].event_seq, 5);

    // a bot that logged in meanwhile keeps its place
    let stale = Bot::new(42, vec![]);
    bots.on_login(42, vec![plugin("new", "ws://n/")]);
    let rejected = bots.put_back(stale).unwrap();
    assert!(rejected.plugin_connections.is_empty());
    assert_eq!(bots.take(42).unwrap().plugin_connections.len(), 1);
}

#[test]
fn admin_lists_and_deletes_bots() {
    let infos = vec![BotInfo { uin: 42, nick: "n".to_string(), status: 1 }];
    assert_eq!(list(infos.clone()).bots, infos);
    let mut bots = Bots::new();
    bots.on_login(42, vec![]);
    let (_, removed) = delete(&mut bots, DeleteBotReq { uin: 42, protocol: 5 });
    assert!(removed.unwrap().stopped);
    assert!(bots.list_bot().is_empty());
    let (_, removed) = delete(&mut bots, DeleteBotReq { uin: 42, protocol: 5 });
    assert!(removed.is_none());
}

#[test]
fn cleaning_takes_expired_roles_out() {
    let mut bot = Bot::new(42, vec![]);
    bot.group_role_cache.cache_set_lifespan(0);
    for user in 0..101 {
        assert_eq!(bot.cached_group_role(7, user), None);
    }
    bot.store_group_admins(7, 1, &vec![(1, GroupMemberPermission::Owner)]);
    assert_eq!(bot.group_role_cache.cache_size(), 0);
    assert_eq!(bot.group_role_cache.cache_misses(), Some(0));
}
