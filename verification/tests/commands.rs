use std::collections::HashMap;

use streamer_notifier::action::Action;
use streamer_notifier::commands;
use streamer_notifier::commands::{
    add, add_finish, list, registers_commands, remove, remove_finish, reset, reset_finish,
    set_finish, CommandStep,
};
use streamer_notifier::config::{Cache, GuildConfig};

fn reply_of(step: CommandStep) -> Option<String> {
    match step {
        CommandStep::Reply(text) => Some(text),
        CommandStep::Store(_) => None,
    }
}

fn streamers_of(cache: &Cache, guild_id: u64) -> Vec<String> {
    cache.guilds().get(&guild_id).map(|c| c.streamers.clone()).unwrap_or_default()
}

#[test]
fn add_new_streamer_asks_to_store() {
    let mut cache = Cache::new(HashMap::new());
    let step = add(&mut cache, 1, &"Shroud".to_string());
    assert!(reply_of(step).is_none());
    assert_eq!(streamers_of(&cache, 1), vec!["Shroud".to_string()]);
    assert_eq!(cache.guilds().get(&1).unwrap().channel, None);
}

#[test]
fn add_same_streamer_in_other_case_is_refused() {
    let mut cache = Cache::new(HashMap::new());
    add(&mut cache, 1, &"Shroud".to_string());
    let step = add(&mut cache, 1, &"sHROUD".to_string());
    assert_eq!(reply_of(step), Some("Streamer sHROUD already added".to_string()));
    assert_eq!(streamers_of(&cache, 1), vec!["Shroud".to_string()]);
}

#[test]
fn add_is_per_guild() {
    let mut cache = Cache::new(HashMap::new());
    add(&mut cache, 1, &"a".to_string());
    let step = add(&mut cache, 2, &"A".to_string());
    assert!(reply_of(step).is_none());
    assert_eq!(streamers_of(&cache, 1), vec!["a".to_string()]);
    assert_eq!(streamers_of(&cache, 2), vec!["A".to_string()]);
}

fn stored_step(step: CommandStep) -> streamer_notifier::config::PreviousConfig {
    match step {
        CommandStep::Store(previous) => previous,
        CommandStep::Reply(text) => panic!("unexpected reply {text}"),
    }
}

#[test]
fn add_finish_replies_and_notifies() {
    let mut cache = Cache::new(HashMap::new());
    let previous = stored_step(add(&mut cache, 1, &"xqc".to_string()));
    let end = add_finish(&mut cache, "xqc".to_string(), previous, true);
    assert_eq!(end.reply, "Streamer added");
    assert_eq!(end.message, Some(("xqc".to_string(), Action::Add)));
    assert_eq!(streamers_of(&cache, 1), vec!["xqc".to_string()]);
}

#[test]
fn add_finish_undoes_the_add_when_storing_fails() {
    let mut cache = Cache::new(HashMap::new());
    add(&mut cache, 2, &"a".to_string());
    let previous = stored_step(add(&mut cache, 2, &"xqc".to_string()));
    let failed = add_finish(&mut cache, "xqc".to_string(), previous, false);
    assert_eq!(failed.reply, "An error occured while trying to store the streamer!");
    assert_eq!(failed.message, None);
    assert_eq!(streamers_of(&cache, 2), vec!["a".to_string()]);
    // a guild that had no configuration has none again
    let previous = stored_step(add(&mut cache, 3, &"b".to_string()));
    add_finish(&mut cache, "b".to_string(), previous, false);
    assert!(!cache.guilds().contains_key(&3));
}

#[test]
fn remove_takes_the_first_match_ignoring_case() {
    let mut guilds = HashMap::new();
    guilds.insert(
        5,
        GuildConfig {
            streamers: vec!["one".to_string(), "Two".to_string(), "TWO".to_string()],
            channel: Some(9),
        },
    );
    let mut cache = Cache::new(guilds);
    let step = remove(&mut cache, 5, &"two".to_string());
    assert!(reply_of(step).is_none());
    assert_eq!(streamers_of(&cache, 5), vec!["one".to_string(), "TWO".to_string()]);
    assert_eq!(cache.guilds().get(&5).unwrap().channel, Some(9));
}

#[test]
fn remove_unknown_streamer_replies() {
    let mut cache = Cache::new(HashMap::new());
    let step = remove(&mut cache, 3, &"ghost".to_string());
    assert_eq!(reply_of(step), Some("Streamer ghost does not exist".to_string()));
    // the guild now has an (empty) configuration
    assert!(cache.guilds().contains_key(&3));
    assert!(streamers_of(&cache, 3).is_empty());
}

#[test]
fn remove_finish_replies_and_notifies() {
    let mut cache = Cache::new(HashMap::new());
    add(&mut cache, 1, &"xqc".to_string());
    let previous = stored_step(remove(&mut cache, 1, &"XQC".to_string()));
    let end = remove_finish(&mut cache, "XQC".to_string(), previous, true);
    assert_eq!(end.reply, "Streamer removed");
    assert_eq!(end.message, Some(("XQC".to_string(), Action::Remove)));
    assert!(streamers_of(&cache, 1).is_empty());
}

#[test]
fn remove_finish_puts_the_streamer_back_when_storing_fails() {
    let mut cache = Cache::new(HashMap::new());
    add(&mut cache, 1, &"a".to_string());
    add(&mut cache, 1, &"xqc".to_string());
    add(&mut cache, 1, &"b".to_string());
    let previous = stored_step(remove(&mut cache, 1, &"xqc".to_string()));
    let failed = remove_finish(&mut cache, "xqc".to_string(), previous, false);
    assert_eq!(failed.reply, "An error occured while trying to store the streamer!");
    assert_eq!(failed.message, None);
    assert_eq!(streamers_of(&cache, 1), vec!["a".to_string(), "xqc".to_string(), "b".to_string()]);
}

#[test]
fn remove_undoes_add() {
    let mut cache = Cache::new(HashMap::new());
    add(&mut cache, 1, &"a".to_string());
    add(&mut cache, 1, &"b".to_string());
    add(&mut cache, 1, &"c".to_string());
    remove(&mut cache, 1, &"B".to_string());
    assert_eq!(streamers_of(&cache, 1), vec!["a".to_string(), "c".to_string()]);
}

#[test]
fn list_without_streamers() {
    let mut cache = Cache::new(HashMap::new());
    assert_eq!(list(&mut cache, 4), "No streamers added");
    assert!(cache.guilds().contains_key(&4));
}

#[test]
fn list_joins_in_order() {
    let mut cache = Cache::new(HashMap::new());
    add(&mut cache, 4, &"Alpha".to_string());
    add(&mut cache, 4, &"beta".to_string());
    add(&mut cache, 4, &"Gamma".to_string());
    assert_eq!(list(&mut cache, 4), "Streamers: Alpha, beta, Gamma");
}

#[test]
fn list_single_streamer() {
    let mut cache = Cache::new(HashMap::new());
    add(&mut cache, 4, &"Solo".to_string());
    assert_eq!(list(&mut cache, 4), "Streamers: Solo");
}

#[test]
fn set_and_reset_channel() {
    let mut cache = Cache::new(HashMap::new());
    add(&mut cache, 8, &"a".to_string());
    let previous = commands::set(&mut cache, 8, 1234);
    assert_eq!(set_finish(&mut cache, previous, true), "Channel successfully set");
    assert_eq!(cache.guilds().get(&8).unwrap().channel, Some(1234));
    assert_eq!(streamers_of(&cache, 8), vec!["a".to_string()]);
    let previous = reset(&mut cache, 8);
    assert_eq!(reset_finish(&mut cache, previous, true), "Channel unset");
    assert_eq!(cache.guilds().get(&8).unwrap().channel, None);
    assert_eq!(streamers_of(&cache, 8), vec!["a".to_string()]);
}

#[test]
fn channel_changes_are_undone_when_storing_fails() {
    let mut cache = Cache::new(HashMap::new());
    let previous = commands::set(&mut cache, 8, 1234);
    set_finish(&mut cache, previous, true);
    let previous = commands::set(&mut cache, 8, 99);
    assert_eq!(
        set_finish(&mut cache, previous, false),
        "An error occured while trying to store the channel setting!"
    );
    assert_eq!(cache.guilds().get(&8).unwrap().channel, Some(1234));
    let previous = reset(&mut cache, 8);
    assert_eq!(
        reset_finish(&mut cache, previous, false),
        "An error occured while trying to store the channel setting!"
    );
    assert_eq!(cache.guilds().get(&8).unwrap().channel, Some(1234));
}

#[test]
fn commands_are_registered_unless_guild_is_old() {
    assert!(registers_commands(None));
    assert!(registers_commands(Some(true)));
    assert!(!registers_commands(Some(false)));
}

#[test]
fn added_streamer_is_announced_in_the_set_channel() {
    let mut cache = Cache::new(HashMap::new());
    add(&mut cache, 11, &"Shroud".to_string());
    commands::set(&mut cache, 11, 777);
    add(&mut cache, 12, &"other".to_string());
    commands::set(&mut cache, 12, 888);
    assert_eq!(cache.live_channels("SHROUD"), vec![777]);
    reset(&mut cache, 11);
    assert!(cache.live_channels("SHROUD").is_empty());
}

#[test]
fn streamers_stay_distinct_ignoring_case() {
    let mut cache = Cache::new(HashMap::new());
    for name in ["a", "A", "b", "B", "a"] {
        add(&mut cache, 1, &name.to_string());
    }
    assert_eq!(streamers_of(&cache, 1), vec!["a".to_string(), "b".to_string()]);
    remove(&mut cache, 1, &"A".to_string());
    assert_eq!(streamers_of(&cache, 1), vec!["b".to_string()]);
}
