//! The slash commands: what each does to the cache and what it answers.
//!
//! A command that changes the cache asks for the cache to be stored before
//! it answers; the answer then depends on whether storing worked.

use vstd::prelude::*;

use crate::action::{Action, StreamerMessage};
use crate::config::{
    config_of, restored, with_channel, with_streamer, without_streamer, Cache, PreviousConfig,
};
use crate::names::{has_streamer, names_of};
use crate::text::{join, joined};

verus! {

/// What a command asks for once it has looked at (and maybe changed) the cache.
pub enum CommandStep {
    /// Answer with this text; nothing changed that needs storing.
    Reply(String),
    /// Store the cache, then finish the command; the guild's former
    /// configuration is kept to put back if storing fails.
    Store(PreviousConfig),
}

/// How a command ends: its answer and, maybe, a message for the
/// subscription listener.
pub struct CommandEnd {
    pub reply: String,
    pub message: Option<StreamerMessage>,
}

/// The answer when storing the cache failed after a streamer change.
pub open spec fn streamer_store_failed_text() -> Seq<char> {
    "An error occured while trying to store the streamer!"@
}

/// The answer when storing the cache failed after a channel change.
pub open spec fn channel_store_failed_text() -> Seq<char> {
    "An error occured while trying to store the channel setting!"@
}

/// The answer to adding a streamer the guild already follows.
pub open spec fn already_added_text(name: Seq<char>) -> Seq<char> {
    "Streamer "@ + name + " already added"@
}

/// The answer to removing a streamer the guild does not follow.
pub open spec fn not_found_text(name: Seq<char>) -> Seq<char> {
    "Streamer "@ + name + " does not exist"@
}

/// The answer to listing the streamers of a guild.
pub open spec fn list_text(names: Seq<Seq<char>>) -> Seq<char> {
    if names.len() == 0 {
        "No streamers added"@
    } else {
        "Streamers: "@ + joined(names, ", "@)
    }
}

/// `add`: adds `streamer` to the guild's list unless the guild already
/// follows that streamer in any case. It asks for the cache to be stored
/// when it added, and answers at once when it did not.
pub fn add(cache: &mut Cache, guild_id: u64, streamer: &String) -> (step: CommandStep)
    ensures
        ({
            let before = config_of(old(cache)@, guild_id);
            if has_streamer(before.streamers, streamer@) {
                &&& step matches CommandStep::Reply(text) && text@ == already_added_text(streamer@)
                &&& final(cache)@ == old(cache)@.insert(guild_id, before)
            } else {
                &&& step matches CommandStep::Store(previous) && previous@ == (
                    guild_id,
                    old(cache)@.get(guild_id),
                )
                &&& final(cache)@ == old(cache)@.insert(guild_id, with_streamer(before, streamer@))
            }
        }),
{
    let previous = cache.previous(guild_id);
    if cache.add_streamer(guild_id, streamer) {
        CommandStep::Store(previous)
    } else {
        let mut text = "Streamer ".to_owned();
        text.append(streamer.as_str());
        text.append(" already added");
        CommandStep::Reply(text)
    }
}

/// How `add` ends once the cache was stored (`stored`) or not: on success it
/// answers "Streamer added" and asks the listener to follow `streamer`; on
/// failure it puts the guild's former configuration back.
pub fn add_finish(
    cache: &mut Cache,
    streamer: String,
    previous: PreviousConfig,
    stored: bool,
) -> (end: CommandEnd)
    ensures
        stored ==> end.reply@ == "Streamer added"@ && (end.message matches Some(m) && m.0@
            == streamer@ && m.1 == Action::Add) && final(cache)@ == old(cache)@,
        !stored ==> end.reply@ == streamer_store_failed_text() && end.message is None
            && final(cache)@ == restored(old(cache)@, previous@),
{
    if stored {
        CommandEnd { reply: "Streamer added".to_owned(), message: Some((streamer, Action::Add)) }
    } else {
        cache.restore(previous);
        CommandEnd {
            reply: "An error occured while trying to store the streamer!".to_owned(),
            message: None,
        }
    }
}

/// `remove`: removes the guild's first streamer that is `streamer`,
/// ignoring case. It asks for the cache to be stored when it removed one,
/// and answers at once when there was none.
pub fn remove(cache: &mut Cache, guild_id: u64, streamer: &String) -> (step: CommandStep)
    ensures
        ({
            let before = config_of(old(cache)@, guild_id);
            if has_streamer(before.streamers, streamer@) {
                &&& step matches CommandStep::Store(previous) && previous@ == (
                    guild_id,
                    old(cache)@.get(guild_id),
                )
                &&& final(cache)@ == old(cache)@.insert(guild_id, without_streamer(before, streamer@))
            } else {
                &&& step matches CommandStep::Reply(text) && text@ == not_found_text(streamer@)
                &&& final(cache)@ == old(cache)@.insert(guild_id, before)
            }
        }),
{
    let previous = cache.previous(guild_id);
    if cache.remove_streamer(guild_id, streamer.as_str()) {
        CommandStep::Store(previous)
    } else {
        let mut text = "Streamer ".to_owned();
        text.append(streamer.as_str());
        text.append(" does not exist");
        CommandStep::Reply(text)
    }
}

/// How `remove` ends once the cache was stored (`stored`) or not: on
/// success it answers "Streamer removed" and asks the listener to drop one
/// follow of `streamer`; on failure it puts the guild's former
/// configuration back.
pub fn remove_finish(
    cache: &mut Cache,
    streamer: String,
    previous: PreviousConfig,
    stored: bool,
) -> (end: CommandEnd)
    ensures
        stored ==> end.reply@ == "Streamer removed"@ && (end.message matches Some(m) && m.0@
            == streamer@ && m.1 == Action::Remove) && final(cache)@ == old(cache)@,
        !stored ==> end.reply@ == streamer_store_failed_text() && end.message is None
            && final(cache)@ == restored(old(cache)@, previous@),
{
    if stored {
        CommandEnd { reply: "Streamer removed".to_owned(), message: Some((streamer, Action::Remove)) }
    } else {
        cache.restore(previous);
        CommandEnd {
            reply: "An error occured while trying to store the streamer!".to_owned(),
            message: None,
        }
    }
}

/// `list`: the answer listing the guild's streamers.
pub fn list(cache: &mut Cache, guild_id: u64) -> (reply: String)
    ensures
        reply@ == list_text(config_of(old(cache)@, guild_id).streamers),
        final(cache)@ == old(cache)@.insert(guild_id, config_of(old(cache)@, guild_id)),
{
    let streamers = cache.streamers(guild_id);
    if streamers.len() == 0 {
        "No streamers added".to_owned()
    } else {
        let mut text = "Streamers: ".to_owned();
        let names = join(&streamers, ", ");
        text.append(names.as_str());
        text
    }
}

/// `set`: makes `channel` the guild's notification channel; hands back
/// the guild's former configuration, to put back if storing fails.
pub fn set(cache: &mut Cache, guild_id: u64, channel: u64) -> (previous: PreviousConfig)
    ensures
        previous@ == (guild_id, old(cache)@.get(guild_id)),
        final(cache)@ == old(cache)@.insert(
            guild_id,
            with_channel(config_of(old(cache)@, guild_id), Some(channel)),
        ),
{
    let previous = cache.previous(guild_id);
    cache.set_channel(guild_id, Some(channel));
    previous
}

/// How `set` ends once the cache was stored (`stored`) or not; on failure
/// the guild's former configuration is put back.
pub fn set_finish(cache: &mut Cache, previous: PreviousConfig, stored: bool) -> (reply: String)
    ensures
        stored ==> reply@ == "Channel successfully set"@ && final(cache)@ == old(cache)@,
        !stored ==> reply@ == channel_store_failed_text() && final(cache)@ == restored(
            old(cache)@,
            previous@,
        ),
{
    if stored {
        "Channel successfully set".to_owned()
    } else {
        cache.restore(previous);
        "An error occured while trying to store the channel setting!".to_owned()
    }
}

/// `reset`: the guild gets no notifications any more; hands back the
/// guild's former configuration, to put back if storing fails.
pub fn reset(cache: &mut Cache, guild_id: u64) -> (previous: PreviousConfig)
    ensures
        previous@ == (guild_id, old(cache)@.get(guild_id)),
        final(cache)@ == old(cache)@.insert(
            guild_id,
            with_channel(config_of(old(cache)@, guild_id), None),
        ),
{
    let previous = cache.previous(guild_id);
    cache.set_channel(guild_id, None);
    previous
}

/// How `reset` ends once the cache was stored (`stored`) or not; on
/// failure the guild's former configuration is put back.
pub fn reset_finish(cache: &mut Cache, previous: PreviousConfig, stored: bool) -> (reply: String)
    ensures
        stored ==> reply@ == "Channel unset"@ && final(cache)@ == old(cache)@,
        !stored ==> reply@ == channel_store_failed_text() && final(cache)@ == restored(
            old(cache)@,
            previous@,
        ),
{
    if stored {
        "Channel unset".to_owned()
    } else {
        cache.restore(previous);
        "An error occured while trying to store the channel setting!".to_owned()
    }
}

/// Whether the bot registers its commands in a guild it has just been
/// told about: unless the guild is known not to be new to it.
pub fn registers_commands(is_new: Option<bool>) -> (register: bool)
    ensures
        register == (is_new != Some(false)),
{
    match is_new {
        Some(new) => new,
        None => true,
    }
}

} // verus!
