//! Per-guild configuration and the in-memory cache of all guilds.

use std::collections::HashMap;
use vstd::prelude::*;

use crate::names::{contains_streamer, has_streamer, is_first_match, names_of, position_of};

verus! {

broadcast use vstd::std_specs::hash::group_hash_axioms;

/// The settings of one guild: the streamers it follows and the channel
/// that receives the announcements (a Discord channel id).
pub struct GuildConfig {
    pub streamers: Vec<String>,
    pub channel: Option<u64>,
}

/// The abstract value of a [`GuildConfig`].
pub struct GuildConfigView {
    pub streamers: Seq<Seq<char>>,
    pub channel: Option<u64>,
}

impl View for GuildConfig {
    type V = GuildConfigView;

    open spec fn view(&self) -> GuildConfigView {
        GuildConfigView { streamers: names_of(self.streamers@), channel: self.channel }
    }
}

/// The configuration a guild starts with: no streamers, no channel.
pub open spec fn empty_config() -> GuildConfigView {
    GuildConfigView { streamers: Seq::empty(), channel: None }
}

/// Guild configurations keyed by guild id.
pub type GuildsConfig = HashMap<u64, GuildConfig>;

/// The abstract value of a [`GuildsConfig`].
pub open spec fn guilds_view(guilds: Map<u64, GuildConfig>) -> Map<u64, GuildConfigView> {
    guilds.map_values(|c: GuildConfig| c@)
}

/// The configuration of `guild_id` in `guilds`, or the empty one when the
/// guild has none yet.
pub open spec fn config_of(guilds: Map<u64, GuildConfigView>, guild_id: u64) -> GuildConfigView {
    if guilds.contains_key(guild_id) {
        guilds[guild_id]
    } else {
        empty_config()
    }
}

/// Looks up the configuration of `guild_id`, inserting the empty one first
/// when the guild has none, and lends it out for change.
fn guild_config(guilds: &mut GuildsConfig, guild_id: u64) -> (config: &mut GuildConfig)
    ensures
        config@ == config_of(guilds_view(old(guilds)@), guild_id),
        final(guilds)@ == old(guilds)@.insert(guild_id, *final(config)),
{
    let fresh = GuildConfig { streamers: Vec::new(), channel: None };
    assert(fresh@.streamers =~= empty_config().streamers);
    guilds.entry(guild_id).or_insert(fresh)
}


/// The index of the first streamer of `names` that is `name`, ignoring case
/// (meaningful when there is one).
pub open spec fn first_match(names: Seq<Seq<char>>, name: Seq<char>) -> int {
    choose|i: int| is_first_match(names, name, i)
}

/// There is at most one first match.
pub proof fn lemma_first_match_unique(names: Seq<Seq<char>>, name: Seq<char>, i: int)
    requires
        is_first_match(names, name, i),
    ensures
        first_match(names, name) == i,
{
    let k = first_match(names, name);
    assert(is_first_match(names, name, k));
    if k < i {
        assert(!crate::names::same_streamer(names[k], name));
    } else if i < k {
        assert(!crate::names::same_streamer(names[i], name));
    }
}

/// `config` with `name` appended to its streamers.
pub open spec fn with_streamer(config: GuildConfigView, name: Seq<char>) -> GuildConfigView {
    GuildConfigView { streamers: config.streamers.push(name), channel: config.channel }
}

/// `config` without its first streamer that is `name`, ignoring case.
pub open spec fn without_streamer(config: GuildConfigView, name: Seq<char>) -> GuildConfigView {
    GuildConfigView {
        streamers: config.streamers.remove(first_match(config.streamers, name)),
        channel: config.channel,
    }
}

/// `config` with its notification channel replaced.
pub open spec fn with_channel(config: GuildConfigView, channel: Option<u64>) -> GuildConfigView {
    GuildConfigView { streamers: config.streamers, channel }
}

/// `order` lists every guild of `guilds` exactly once.
pub open spec fn is_walk(order: Seq<u64>, guilds: Map<u64, GuildConfigView>) -> bool {
    order.no_duplicates() && order.to_set() == guilds.dom()
}

/// The channel a guild announces `name` in: its notification channel, when
/// it follows that streamer (ignoring case) and has one.
pub open spec fn announce_channel(config: GuildConfigView, name: Seq<char>) -> Option<u64> {
    if has_streamer(config.streamers, name) {
        config.channel
    } else {
        None
    }
}

/// The announcement channels of the guilds in `order`, in that order.
pub open spec fn announcements(
    order: Seq<u64>,
    guilds: Map<u64, GuildConfigView>,
    name: Seq<char>,
) -> Seq<u64>
    decreases order.len(),
{
    if order.len() == 0 {
        Seq::empty()
    } else {
        let earlier = announcements(order.drop_last(), guilds, name);
        match announce_channel(guilds[order.last()], name) {
            Some(channel) => earlier.push(channel),
            None => earlier,
        }
    }
}

/// The streamer lists of the guilds in `order`, one after the other.
pub open spec fn followed(order: Seq<u64>, guilds: Map<u64, GuildConfigView>) -> Seq<Seq<char>>
    decreases order.len(),
{
    if order.len() == 0 {
        Seq::empty()
    } else {
        followed(order.drop_last(), guilds) + guilds[order.last()].streamers
    }
}

/// A copy of a list of streamer names.
pub fn copy_names(list: &Vec<String>) -> (copy: Vec<String>)
    ensures
        names_of(copy@) == names_of(list@),
{
    let mut copy: Vec<String> = Vec::new();
    let mut i: usize = 0;
    while i < list.len()
        invariant
            i <= list.len(),
            copy@.len() == i,
            forall|j: int| 0 <= j < i ==> #[trigger] copy@[j]@ == list@[j]@,
        decreases list.len() - i,
    {
        copy.push(list[i].clone());
        i = i + 1;
    }
    assert(names_of(copy@) =~= names_of(list@));
    copy
}

/// The configuration a guild had before a command changed it (`None`:
/// it had none), kept to undo the change when storing fails.
pub struct PreviousConfig {
    guild_id: u64,
    config: Option<GuildConfig>,
}

/// The abstract value of a [`PreviousConfig`]: the guild and its former
/// configuration.
impl View for PreviousConfig {
    type V = (u64, Option<GuildConfigView>);

    closed spec fn view(&self) -> (u64, Option<GuildConfigView>) {
        (
            self.guild_id,
            match self.config {
                Some(config) => Some(config@),
                None => None,
            },
        )
    }
}

/// `guilds` with the guild of `previous` put back as it was.
pub open spec fn restored(
    guilds: Map<u64, GuildConfigView>,
    previous: (u64, Option<GuildConfigView>),
) -> Map<u64, GuildConfigView> {
    match previous.1 {
        Some(config) => guilds.insert(previous.0, config),
        None => guilds.remove(previous.0),
    }
}

/// The configuration of every guild the bot serves.
pub struct Cache {
    guilds: GuildsConfig,
}

impl View for Cache {
    type V = Map<u64, GuildConfigView>;

    closed spec fn view(&self) -> Map<u64, GuildConfigView> {
        guilds_view(self.guilds@)
    }
}

impl Cache {
    /// A cache that holds the given configurations.
    pub fn new(guilds: GuildsConfig) -> (cache: Cache)
        ensures
            cache@ == guilds_view(guilds@),
    {
        Cache { guilds }
    }

    /// The configurations held, as they would be stored.
    pub fn guilds(&self) -> (guilds: &GuildsConfig)
        ensures
            guilds_view(guilds@) == self@,
    {
        &self.guilds
    }

    /// Adds `streamer` to the guild's list unless the list already holds
    /// that streamer in any case; reports whether it was added. The guild
    /// gets an empty configuration first if it had none.
    pub fn add_streamer(&mut self, guild_id: u64, streamer: &String) -> (added: bool)
        ensures
            added == !has_streamer(config_of(old(self)@, guild_id).streamers, streamer@),
            final(self)@ == old(self)@.insert(
                guild_id,
                if added {
                    with_streamer(config_of(old(self)@, guild_id), streamer@)
                } else {
                    config_of(old(self)@, guild_id)
                },
            ),
    {
        let config = guild_config(&mut self.guilds, guild_id);
        if contains_streamer(&config.streamers, streamer.as_str()) {
            false
        } else {
            let ghost before = config.streamers@;
            config.streamers.push(streamer.clone());
            assert(names_of(config.streamers@) =~= names_of(before).push(streamer@));
            true
        }
    }

    /// Removes the first streamer of the guild's list that is `streamer`,
    /// ignoring case; reports whether there was one. The guild gets an
    /// empty configuration first if it had none.
    pub fn remove_streamer(&mut self, guild_id: u64, streamer: &str) -> (removed: bool)
        ensures
            removed == has_streamer(config_of(old(self)@, guild_id).streamers, streamer@),
            final(self)@ == old(self)@.insert(
                guild_id,
                if removed {
                    without_streamer(config_of(old(self)@, guild_id), streamer@)
                } else {
                    config_of(old(self)@, guild_id)
                },
            ),
    {
        let config = guild_config(&mut self.guilds, guild_id);
        match position_of(&config.streamers, streamer) {
            Some(index) => {
                let ghost before = config.streamers@;
                proof {
                    lemma_first_match_unique(names_of(before), streamer@, index as int);
                }
                config.streamers.remove(index);
                assert(names_of(config.streamers@) =~= names_of(before).remove(index as int));
                true
            },
            None => false,
        }
    }

    /// The streamers the guild follows, in the order they were added. The
    /// guild gets an empty configuration first if it had none.
    pub fn streamers(&mut self, guild_id: u64) -> (streamers: Vec<String>)
        ensures
            names_of(streamers@) == config_of(old(self)@, guild_id).streamers,
            final(self)@ == old(self)@.insert(guild_id, config_of(old(self)@, guild_id)),
    {
        let config = guild_config(&mut self.guilds, guild_id);
        copy_names(&config.streamers)
    }

    /// The ids of all guilds, each once, in the map's own order.
    fn guild_ids(&self) -> (ids: Vec<u64>)
        ensures
            ids@.no_duplicates(),
            ids@.to_set() == self@.dom(),
    {
        let ghost keys = vstd::std_specs::iter::IteratorSpec::remaining(
            &vstd::std_specs::hash::spec_keys_iter(&self.guilds),
        );
        let mut ids: Vec<u64> = Vec::new();
        for id in it: self.guilds.keys()
            invariant
                it.seq() == keys,
                ids@.len() == it.index(),
                forall|i: int| 0 <= i < it.index() ==> ids@[i] == *keys[i],
        {
            ids.push(*id);
        }
        assert(ids@.len() == keys.len());
        assert(ids@ =~= keys.unref());
        assert(self@.dom() =~= self.guilds@.dom());
        ids
    }

    /// The channels to announce that `streamer` went live in: one entry for
    /// each guild that follows the streamer (ignoring case) and has a
    /// notification channel, the guilds taken in the map's own order.
    pub fn live_channels(&self, streamer: &str) -> (channels: Vec<u64>)
        ensures
            exists|order: Seq<u64>|
                is_walk(order, self@) && channels@ == announcements(order, self@, streamer@),
    {
        let ids = self.guild_ids();
        let mut channels: Vec<u64> = Vec::new();
        let mut i: usize = 0;
        while i < ids.len()
            invariant
                i <= ids.len(),
                ids@.to_set() == self@.dom(),
                channels@ == announcements(ids@.take(i as int), self@, streamer@),
            decreases ids.len() - i,
        {
            let id = ids[i];
            assert(ids@.take(i + 1).drop_last() =~= ids@.take(i as int));
            assert(ids@.to_set().contains(ids@[i as int]));
            match self.guilds.get(&id) {
                Some(config) => {
                    if contains_streamer(&config.streamers, streamer) {
                        match config.channel {
                            Some(channel) => channels.push(channel),
                            None => {},
                        }
                    }
                },
                None => {},
            }
            i = i + 1;
        }
        assert(ids@.take(ids@.len() as int) =~= ids@);
        assert(is_walk(ids@, self@));
        assert(channels@ == announcements(ids@, self@, streamer@));
        channels
    }

    /// Every streamer of every guild, guild after guild in the map's own
    /// order, each guild's list in its own order.
    pub fn all_streamers(&self) -> (streamers: Vec<String>)
        ensures
            exists|order: Seq<u64>|
                is_walk(order, self@) && names_of(streamers@) == followed(order, self@),
    {
        let ids = self.guild_ids();
        let mut streamers: Vec<String> = Vec::new();
        let mut i: usize = 0;
        while i < ids.len()
            invariant
                i <= ids.len(),
                ids@.to_set() == self@.dom(),
                names_of(streamers@) == followed(ids@.take(i as int), self@),
            decreases ids.len() - i,
        {
            let id = ids[i];
            assert(ids@.take(i + 1).drop_last() =~= ids@.take(i as int));
            assert(ids@.to_set().contains(ids@[i as int]));
            match self.guilds.get(&id) {
                Some(config) => {
                    let ghost before = names_of(streamers@);
                    let mut j: usize = 0;
                    while j < config.streamers.len()
                        invariant
                            j <= config.streamers.len(),
                            names_of(streamers@) == before + names_of(config.streamers@).take(j as int),
                        decreases config.streamers.len() - j,
                    {
                        let ghost prior = streamers@;
                        streamers.push(config.streamers[j].clone());
                        assert(names_of(streamers@) =~= names_of(prior).push(config.streamers@[j as int]@));
                        assert(names_of(config.streamers@).take(j + 1) =~= names_of(config.streamers@).take(j as int).push(config.streamers@[j as int]@));
                        j = j + 1;
                    }
                    assert(names_of(config.streamers@).take(j as int) =~= names_of(config.streamers@));
                },
                None => {},
            }
            i = i + 1;
        }
        assert(ids@.take(ids@.len() as int) =~= ids@);
        streamers
    }

    /// The guild's configuration as it is now, to put back later.
    pub fn previous(&self, guild_id: u64) -> (previous: PreviousConfig)
        ensures
            previous@ == (guild_id, self@.get(guild_id)),
    {
        match self.guilds.get(&guild_id) {
            Some(config) => {
                let copy = GuildConfig { streamers: copy_names(&config.streamers), channel: config.channel };
                PreviousConfig { guild_id, config: Some(copy) }
            },
            None => PreviousConfig { guild_id, config: None },
        }
    }

    /// Puts the guild of `previous` back as it was (removing it when it had
    /// no configuration).
    pub fn restore(&mut self, previous: PreviousConfig)
        ensures
            final(self)@ == restored(old(self)@, previous@),
    {
        match previous.config {
            Some(config) => {
                self.guilds.insert(previous.guild_id, config);
            },
            None => {
                self.guilds.remove(&previous.guild_id);
                assert(guilds_view(self.guilds@) =~= guilds_view(old(self).guilds@).remove(previous.guild_id));
            },
        }
    }

    /// Sets (`Some`) or clears (`None`) the guild's notification channel.
    /// The guild gets an empty configuration first if it had none.
    pub fn set_channel(&mut self, guild_id: u64, channel: Option<u64>)
        ensures
            final(self)@ == old(self)@.insert(
                guild_id,
                with_channel(config_of(old(self)@, guild_id), channel),
            ),
    {
        let config = guild_config(&mut self.guilds, guild_id);
        config.channel = channel;
    }
}

} // verus!
