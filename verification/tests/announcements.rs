use std::collections::HashMap;

use streamer_notifier::config::{Cache, GuildConfig};
use streamer_notifier::names::{contains_streamer, position_of, same_streamer_name};
use streamer_notifier::text::{join, live_message};

fn guild(streamers: &[&str], channel: Option<u64>) -> GuildConfig {
    GuildConfig { streamers: streamers.iter().map(|s| s.to_string()).collect(), channel }
}

fn sample_cache() -> Cache {
    let mut guilds = HashMap::new();
    guilds.insert(1, guild(&["Shroud", "xQc"], Some(100)));
    guilds.insert(2, guild(&["shroud"], Some(200)));
    guilds.insert(3, guild(&["SHROUD"], None));
    guilds.insert(4, guild(&["pokimane"], Some(400)));
    Cache::new(guilds)
}

#[test]
fn live_message_text() {
    assert_eq!(
        live_message("Shroud"),
        "The streamer Shroud is now live at https://twitch.tv/Shroud"
    );
}

#[test]
fn live_channels_match_ignoring_case() {
    let cache = sample_cache();
    let mut channels = cache.live_channels("shroud");
    channels.sort();
    assert_eq!(channels, vec![100, 200]);
}

#[test]
fn live_channels_for_unknown_streamer() {
    let cache = sample_cache();
    assert!(cache.live_channels("nobody").is_empty());
}

#[test]
fn live_channels_one_per_guild() {
    let mut guilds = HashMap::new();
    guilds.insert(1, guild(&["a"], Some(7)));
    guilds.insert(2, guild(&["A"], Some(7)));
    let cache = Cache::new(guilds);
    assert_eq!(cache.live_channels("a"), vec![7, 7]);
}

#[test]
fn all_streamers_of_all_guilds() {
    let cache = sample_cache();
    let mut all = cache.all_streamers();
    all.sort();
    assert_eq!(all, vec!["SHROUD", "Shroud", "pokimane", "shroud", "xQc"]);
}

#[test]
fn all_streamers_of_empty_cache() {
    let cache = Cache::new(HashMap::new());
    assert!(cache.all_streamers().is_empty());
}

#[test]
fn names_compare_ignoring_case() {
    assert!(same_streamer_name("Shroud", "sHrOuD"));
    assert!(!same_streamer_name("Shroud", "Shroud2"));
    assert!(same_streamer_name("ÄBC", "äbc"));
}

#[test]
fn position_finds_first() {
    let list = vec!["x".to_string(), "B".to_string(), "b".to_string()];
    assert_eq!(position_of(&list, "b"), Some(1));
    assert_eq!(position_of(&list, "c"), None);
    assert!(contains_streamer(&list, "X"));
    assert!(!contains_streamer(&list, "y"));
}

#[test]
fn join_lists() {
    let empty: Vec<String> = vec![];
    assert_eq!(join(&empty, ", "), "");
    assert_eq!(join(&vec!["a".to_string()], ", "), "a");
    assert_eq!(join(&vec!["a".to_string(), "b".to_string(), "c".to_string()], "; "), "a; b; c");
}
