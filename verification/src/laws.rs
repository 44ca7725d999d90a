//! Properties of the library that span several operations.

use vstd::prelude::*;

use crate::action::Action;
use crate::commands::list_text;
use crate::config::{
    announce_channel, announcements, config_of, empty_config, first_match, followed, is_walk,
    lemma_first_match_unique, restored, with_channel, with_streamer, without_streamer,
    GuildConfigView,
};
use crate::listener::{after_message, after_subscribe, valid_table, StepView, SubscriptionView};
use crate::names::{has_streamer, is_first_match, same_streamer};
use crate::text::{joined, live_text};
use crate::websocket::{after_event, ClientView, OutcomeView, ProcessError, ServerEventView};

verus! {

/// No two names of the list denote the same streamer (ignoring case).
pub open spec fn distinct_streamers(names: Seq<Seq<char>>) -> bool {
    forall|i: int, j: int|
        0 <= i < j < names.len() ==> !same_streamer(#[trigger] names[i], #[trigger] names[j])
}

/// Adding a streamer twice is adding it once: once `name` was added to a
/// guild, adding it again in any case finds it there (so the second `add`
/// answers "already added" and changes nothing).
pub proof fn law_add_is_idempotent(config: GuildConfigView, name: Seq<char>, again: Seq<char>)
    requires
        same_streamer(name, again),
    ensures
        has_streamer(with_streamer(config, name).streamers, again),
{
    let names = with_streamer(config, name).streamers;
    assert(names[config.streamers.len() as int] == name);
    assert(same_streamer(names[config.streamers.len() as int], again));
}

/// Removing undoes adding: when a guild does not follow `name`, adding it
/// and then removing it (in any case) gives back the guild's configuration.
pub proof fn law_remove_undoes_add(config: GuildConfigView, name: Seq<char>, again: Seq<char>)
    requires
        !has_streamer(config.streamers, name),
        same_streamer(name, again),
    ensures
        has_streamer(with_streamer(config, name).streamers, again),
        without_streamer(with_streamer(config, name), again) == config,
{
    law_add_is_idempotent(config, name, again);
    let names = with_streamer(config, name).streamers;
    let last = config.streamers.len() as int;
    assert forall|j: int| 0 <= j < last implies !same_streamer(#[trigger] names[j], again) by {
        assert(names[j] == config.streamers[j]);
        if same_streamer(names[j], again) {
            assert(same_streamer(config.streamers[j], name));
        }
    }
    assert(is_first_match(names, again, last));
    lemma_first_match_unique(names, again, last);
    assert(names.remove(last) =~= config.streamers);
}

/// Adding keeps a guild's streamers distinct (ignoring case): a name is
/// only appended when no streamer of the list is the same.
pub proof fn law_add_keeps_streamers_distinct(config: GuildConfigView, name: Seq<char>)
    requires
        distinct_streamers(config.streamers),
    ensures
        distinct_streamers(
            if has_streamer(config.streamers, name) {
                config
            } else {
                with_streamer(config, name)
            }.streamers,
        ),
{
    if !has_streamer(config.streamers, name) {
        let names = with_streamer(config, name).streamers;
        assert forall|i: int, j: int| 0 <= i < j < names.len() implies !same_streamer(
            #[trigger] names[i],
            #[trigger] names[j],
        ) by {
            if j == config.streamers.len() {
                assert(names[i] == config.streamers[i]);
                assert(!same_streamer(config.streamers[i], name));
            } else {
                assert(names[i] == config.streamers[i]);
                assert(names[j] == config.streamers[j]);
            }
        }
    }
}

/// Removing keeps a guild's streamers distinct (ignoring case).
pub proof fn law_remove_keeps_streamers_distinct(config: GuildConfigView, name: Seq<char>)
    requires
        distinct_streamers(config.streamers),
        has_streamer(config.streamers, name),
    ensures
        distinct_streamers(without_streamer(config, name).streamers),
{
    let k = choose|i: int|
        0 <= i < config.streamers.len() && same_streamer(#[trigger] config.streamers[i], name);
    lemma_first_match_exists(config.streamers, name, k);
    let f = first_match(config.streamers, name);
    assert(is_first_match(config.streamers, name, f));
    let names = without_streamer(config, name).streamers;
    assert forall|i: int, j: int| 0 <= i < j < names.len() implies !same_streamer(
        #[trigger] names[i],
        #[trigger] names[j],
    ) by {
        let i0 = if i < f { i } else { i + 1 };
        let j0 = if j < f { j } else { j + 1 };
        assert(names[i] == config.streamers[i0]);
        assert(names[j] == config.streamers[j0]);
    }
}

/// A list with a match at `k` has a first match.
proof fn lemma_first_match_exists(names: Seq<Seq<char>>, name: Seq<char>, k: int)
    requires
        0 <= k < names.len(),
        same_streamer(names[k], name),
    ensures
        exists|i: int| is_first_match(names, name, i),
    decreases k,
{
    if forall|j: int| 0 <= j < k ==> !same_streamer(#[trigger] names[j], name) {
        assert(is_first_match(names, name, k));
    } else {
        let j = choose|j: int| 0 <= j < k && same_streamer(#[trigger] names[j], name);
        lemma_first_match_exists(names, name, j);
    }
}

/// Setting and then resetting the channel leaves the guild without a
/// channel and with its streamers as they were; setting it gives the guild
/// exactly that channel.
pub proof fn law_set_then_reset(config: GuildConfigView, channel: u64)
    ensures
        with_channel(config, Some(channel)).channel == Some(channel),
        with_channel(config, Some(channel)).streamers == config.streamers,
        with_channel(with_channel(config, Some(channel)), None) == with_channel(config, None),
        with_channel(with_channel(config, Some(channel)), None).streamers == config.streamers,
        with_channel(with_channel(config, Some(channel)), None).channel is None,
{
}

/// Resetting disables notifications in the guild: no streamer is
/// announced to it any more.
pub proof fn law_reset_disables_notifications(config: GuildConfigView, name: Seq<char>)
    ensures
        announce_channel(with_channel(config, None), name) is None,
{
}

/// Removing a streamer takes it off the notification list: when the
/// guild's streamers are distinct (ignoring case), after removing `name`
/// the guild no longer follows it in any case, and so is not told when it
/// goes live.
pub proof fn law_remove_stops_notifications(
    config: GuildConfigView,
    name: Seq<char>,
    live_name: Seq<char>,
)
    requires
        distinct_streamers(config.streamers),
        has_streamer(config.streamers, name),
        same_streamer(name, live_name),
    ensures
        !has_streamer(without_streamer(config, name).streamers, live_name),
        announce_channel(without_streamer(config, name), live_name) is None,
{
    let k = choose|i: int|
        0 <= i < config.streamers.len() && same_streamer(#[trigger] config.streamers[i], name);
    lemma_first_match_exists(config.streamers, name, k);
    let f = first_match(config.streamers, name);
    assert(is_first_match(config.streamers, name, f));
    let names = without_streamer(config, name).streamers;
    assert forall|i: int| 0 <= i < names.len() implies !same_streamer(
        #[trigger] names[i],
        live_name,
    ) by {
        let i0 = if i < f { i } else { i + 1 };
        assert(names[i] == config.streamers[i0]);
        if i0 < f {
            assert(!same_streamer(config.streamers[i0], config.streamers[f]));
        } else {
            assert(!same_streamer(config.streamers[f], config.streamers[i0]));
        }
    }
}

/// A command whose store fails changes nothing: whatever the command did to
/// the guild's configuration, putting back the configuration it had before
/// (or its absence) gives back the cache as it was.
pub proof fn law_failed_store_changes_nothing(
    guilds: Map<u64, GuildConfigView>,
    guild_id: u64,
    changed: GuildConfigView,
)
    ensures
        restored(guilds.insert(guild_id, changed), (guild_id, guilds.get(guild_id))) == guilds,
{
    if guilds.contains_key(guild_id) {
        assert(guilds.insert(guild_id, changed).insert(guild_id, guilds[guild_id]) =~= guilds);
    } else {
        assert(guilds.insert(guild_id, changed).remove(guild_id) =~= guilds);
    }
}

/// A guild the bot has never seen reads as one with no streamers and no
/// channel.
pub proof fn law_unknown_guild_is_empty(guilds: Map<u64, GuildConfigView>, guild_id: u64)
    requires
        !guilds.contains_key(guild_id),
    ensures
        config_of(guilds, guild_id) == empty_config(),
{
}

/// The guild at position `k` of `order` contributes its announcement.
proof fn lemma_announcement_in_walk(
    order: Seq<u64>,
    guilds: Map<u64, GuildConfigView>,
    name: Seq<char>,
    k: int,
    channel: u64,
)
    requires
        0 <= k < order.len(),
        announce_channel(guilds[order[k]], name) == Some(channel),
    ensures
        announcements(order, guilds, name).contains(channel),
    decreases order.len(),
{
    let earlier = announcements(order.drop_last(), guilds, name);
    if k == order.len() - 1 {
        assert(announcements(order, guilds, name) == earlier.push(channel));
        assert(announcements(order, guilds, name)[earlier.len() as int] == channel);
    } else {
        assert(order.drop_last()[k] == order[k]);
        lemma_announcement_in_walk(order.drop_last(), guilds, name, k, channel);
        let i = choose|i: int| 0 <= i < earlier.len() && earlier[i] == channel;
        match announce_channel(guilds[order.last()], name) {
            Some(c) => assert(announcements(order, guilds, name)[i] == channel),
            None => {},
        }
    }
}

/// Every announcement goes to the channel of a guild that follows the
/// streamer.
proof fn lemma_announcements_come_from_followers(
    order: Seq<u64>,
    guilds: Map<u64, GuildConfigView>,
    name: Seq<char>,
    i: int,
)
    requires
        0 <= i < announcements(order, guilds, name).len(),
    ensures
        exists|k: int|
            0 <= k < order.len() && announce_channel(guilds[#[trigger] order[k]], name) == Some(
                announcements(order, guilds, name)[i],
            ),
    decreases order.len(),
{
    let earlier = announcements(order.drop_last(), guilds, name);
    if i < earlier.len() {
        lemma_announcements_come_from_followers(order.drop_last(), guilds, name, i);
        let k = choose|k: int|
            0 <= k < order.drop_last().len() && announce_channel(
                guilds[#[trigger] order.drop_last()[k]],
                name,
            ) == Some(earlier[i]);
        assert(order.drop_last()[k] == order[k]);
        match announce_channel(guilds[order.last()], name) {
            Some(c) => assert(announcements(order, guilds, name)[i] == earlier[i]),
            None => {},
        }
    } else {
        let k = order.len() - 1;
        assert(order[k] == order.last());
    }
}

/// Some guild that follows `name` has `channel` as its notification channel.
pub open spec fn announced_by_follower(
    guilds: Map<u64, GuildConfigView>,
    name: Seq<char>,
    channel: u64,
) -> bool {
    exists|guild_id: u64|
        guilds.contains_key(guild_id) && #[trigger] announce_channel(guilds[guild_id], name) == Some(
            channel,
        )
}

/// Announcements reach exactly the followers: whatever order the guilds
/// are walked in, a guild that follows `name` (ignoring case) and has a
/// notification channel gets the announcement in that channel, and every
/// announcement goes to such a guild's channel.
pub proof fn law_announcements_reach_followers(
    order: Seq<u64>,
    guilds: Map<u64, GuildConfigView>,
    name: Seq<char>,
)
    requires
        is_walk(order, guilds),
    ensures
        forall|guild_id: u64|
            guilds.contains_key(guild_id) && #[trigger] announce_channel(guilds[guild_id], name)
                is Some ==> announcements(order, guilds, name).contains(
                announce_channel(guilds[guild_id], name)->0,
            ),
        forall|i: int|
            0 <= i < announcements(order, guilds, name).len() ==> announced_by_follower(
                guilds,
                name,
                #[trigger] announcements(order, guilds, name)[i],
            ),
{
    assert forall|guild_id: u64|
        guilds.contains_key(guild_id) && #[trigger] announce_channel(guilds[guild_id], name)
            is Some implies announcements(order, guilds, name).contains(
        announce_channel(guilds[guild_id], name)->0,
    ) by {
        assert(order.to_set().contains(guild_id));
        let k = choose|k: int| 0 <= k < order.len() && order[k] == guild_id;
        let channel = announce_channel(guilds[guild_id], name)->0;
        lemma_announcement_in_walk(order, guilds, name, k, channel);
    }
    assert forall|i: int| 0 <= i < announcements(order, guilds, name).len() implies announced_by_follower(
        guilds,
        name,
        #[trigger] announcements(order, guilds, name)[i],
    ) by {
        lemma_announcements_come_from_followers(order, guilds, name, i);
        let k = choose|k: int|
            0 <= k < order.len() && announce_channel(guilds[#[trigger] order[k]], name) == Some(
                announcements(order, guilds, name)[i],
            );
        assert(order.to_set().contains(order[k]));
        let witness = order[k];
        assert(guilds.contains_key(witness));
        assert(announce_channel(guilds[witness], name) == Some(
            announcements(order, guilds, name)[i],
        ));
    }
}

/// What the commands are for: once a guild has added a streamer (in any
/// case) and set a notification channel, the streamer going live is
/// announced in that channel, whatever order the guilds are walked in.
pub proof fn law_added_streamer_is_announced(
    guilds: Map<u64, GuildConfigView>,
    guild_id: u64,
    name: Seq<char>,
    channel: u64,
    live_name: Seq<char>,
    order: Seq<u64>,
)
    requires
        same_streamer(name, live_name),
        ({
            let before = config_of(guilds, guild_id);
            let added = if has_streamer(before.streamers, name) {
                before
            } else {
                with_streamer(before, name)
            };
            is_walk(order, guilds.insert(guild_id, with_channel(added, Some(channel))))
        }),
    ensures
        ({
            let before = config_of(guilds, guild_id);
            let added = if has_streamer(before.streamers, name) {
                before
            } else {
                with_streamer(before, name)
            };
            announcements(
                order,
                guilds.insert(guild_id, with_channel(added, Some(channel))),
                live_name,
            ).contains(channel)
        }),
{
    let before = config_of(guilds, guild_id);
    let added = if has_streamer(before.streamers, name) {
        before
    } else {
        with_streamer(before, name)
    };
    let after = guilds.insert(guild_id, with_channel(added, Some(channel)));
    if has_streamer(before.streamers, name) {
        let i = choose|i: int|
            0 <= i < before.streamers.len() && same_streamer(#[trigger] before.streamers[i], name);
        assert(same_streamer(added.streamers[i], live_name));
    } else {
        law_add_is_idempotent(before, name, live_name);
    }
    assert(has_streamer(with_channel(added, Some(channel)).streamers, live_name));
    assert(announce_channel(after[guild_id], live_name) == Some(channel));
    law_announcements_reach_followers(order, after, live_name);
}

/// Every table the listener can reach stays valid: each operation maps a
/// valid table to a valid one.
pub proof fn law_listener_keeps_table_valid(
    table: Map<Seq<char>, SubscriptionView>,
    name: Seq<char>,
    action: Action,
    id: Seq<char>,
)
    requires
        valid_table(table),
    ensures
        valid_table(after_message(table, name, action).0),
        valid_table(after_subscribe(table, name, id)),
{
}

/// Following and then unfollowing a streamer gives the listener back its
/// table. A streamer it already follows just counts one follow up and
/// down; a new one is subscribed with some `id`, and on the unfollow that
/// subscription is deleted again, or, when it was the only streamer, the
/// table is empty again and the listener stops.
pub proof fn law_remove_undoes_add_in_listener(
    table: Map<Seq<char>, SubscriptionView>,
    name: Seq<char>,
    id: Seq<char>,
)
    requires
        valid_table(table),
    ensures
        table.contains_key(name) ==> {
            let (added, step) = after_message(table, name, Action::Add);
            &&& step == StepView::Continue
            &&& after_message(added, name, Action::Remove) == (table, StepView::Continue)
        },
        !table.contains_key(name) ==> {
            let (unchanged, step) = after_message(table, name, Action::Add);
            &&& unchanged == table
            &&& step == StepView::Subscribe(name)
            &&& after_message(after_subscribe(table, name, id), name, Action::Remove) == (
                table,
                if table.len() == 0 {
                    StepView::Stop
                } else {
                    StepView::Unsubscribe(id)
                },
            )
        },
{
    if table.contains_key(name) {
        let added = after_message(table, name, Action::Add).0;
        let back = after_message(added, name, Action::Remove).0;
        assert(back =~= table);
    } else {
        let subscribed = after_subscribe(table, name, id);
        assert(subscribed.len() == table.len() + 1);
        assert(subscribed.remove(name) =~= table);
    }
}

/// The listener stops on a `Remove` exactly when it drops its last
/// streamer (or on `Abort`); it then hands back nothing to reconnect for.
pub proof fn law_listener_stops_when_last_streamer_is_removed(
    table: Map<Seq<char>, SubscriptionView>,
    name: Seq<char>,
)
    requires
        valid_table(table),
    ensures
        after_message(table, name, Action::Remove).1 == StepView::Stop <==> (table.len() == 1
            && table.contains_key(name) && table[name].count == 1),
        after_message(table, name, Action::Remove).1 == StepView::Stop ==> after_message(
            table,
            name,
            Action::Remove,
        ).0.len() == 0,
        after_message(table, name, Action::Abort) == (table, StepView::Stop),
{
    if table.contains_key(name) && table[name].count == 1 {
        assert(table.remove(name).len() == table.len() - 1);
    }
}

/// Walking two lists of guilds one after the other announces what walking
/// each announces, one after the other.
pub proof fn law_announcements_concatenate(
    first: Seq<u64>,
    second: Seq<u64>,
    guilds: Map<u64, GuildConfigView>,
    name: Seq<char>,
)
    ensures
        announcements(first + second, guilds, name) == announcements(first, guilds, name)
            + announcements(second, guilds, name),
    decreases second.len(),
{
    if second.len() == 0 {
        assert(first + second =~= first);
        assert(announcements(second, guilds, name) =~= Seq::<u64>::empty());
        assert(announcements(first, guilds, name) + Seq::<u64>::empty() =~= announcements(
            first,
            guilds,
            name,
        ));
    } else {
        assert((first + second).drop_last() =~= first + second.drop_last());
        assert((first + second).last() == second.last());
        law_announcements_concatenate(first, second.drop_last(), guilds, name);
        let a = announcements(first, guilds, name);
        let b = announcements(second.drop_last(), guilds, name);
        match announce_channel(guilds[second.last()], name) {
            Some(channel) => assert((a + b).push(channel) =~= a + b.push(channel)),
            None => {},
        }
    }
}

/// One guild gets exactly one announcement when it follows `name` (ignoring
/// case) and has a notification channel, in that channel, and none
/// otherwise.
pub proof fn law_one_announcement_per_guild(
    guild_id: u64,
    guilds: Map<u64, GuildConfigView>,
    name: Seq<char>,
)
    ensures
        announcements(seq![guild_id], guilds, name) == if has_streamer(
            guilds[guild_id].streamers,
            name,
        ) && guilds[guild_id].channel is Some {
            seq![guilds[guild_id].channel->0]
        } else {
            Seq::<u64>::empty()
        },
{
    assert(seq![guild_id].drop_last() =~= Seq::<u64>::empty());
    assert(seq![guild_id].last() == guild_id);
    assert(announcements(Seq::<u64>::empty(), guilds, name) =~= Seq::<u64>::empty());
    assert(Seq::<u64>::empty().push(guilds[guild_id].channel->0) =~= seq![
        guilds[guild_id].channel->0,
    ]);
}

/// The announcements of a walk are one per guild that follows `name`
/// (ignoring case) and has a channel, in walk order: there are exactly as
/// many as such guilds.
pub proof fn law_announcement_count(
    order: Seq<u64>,
    guilds: Map<u64, GuildConfigView>,
    name: Seq<char>,
)
    ensures
        announcements(order, guilds, name).len() == order.filter(
            |guild_id: u64|
                has_streamer(guilds[guild_id].streamers, name) && guilds[guild_id].channel is Some,
        ).len(),
    decreases order.len(),
{
    let pred = |guild_id: u64|
        has_streamer(guilds[guild_id].streamers, name) && guilds[guild_id].channel is Some;
    reveal(Seq::filter);
    if order.len() > 0 {
        law_announcement_count(order.drop_last(), guilds, name);
    }
}

/// Walking two lists of guilds one after the other lists the streamers of
/// each walk, one after the other: no guild's streamer is dropped or merged
/// with another guild's.
pub proof fn law_followed_concatenates(
    first: Seq<u64>,
    second: Seq<u64>,
    guilds: Map<u64, GuildConfigView>,
)
    ensures
        followed(first + second, guilds) == followed(first, guilds) + followed(second, guilds),
    decreases second.len(),
{
    if second.len() == 0 {
        assert(first + second =~= first);
        assert(followed(first, guilds) + followed(second, guilds) =~= followed(first, guilds));
    } else {
        assert((first + second).drop_last() =~= first + second.drop_last());
        assert((first + second).last() == second.last());
        law_followed_concatenates(first, second.drop_last(), guilds);
        let a = followed(first, guilds);
        let b = followed(second.drop_last(), guilds);
        assert((a + b) + guilds[second.last()].streamers =~= a + (b
            + guilds[second.last()].streamers));
    }
}

/// A single guild contributes its whole streamer list, each entry once.
pub proof fn law_followed_single_guild(guild_id: u64, guilds: Map<u64, GuildConfigView>)
    ensures
        followed(seq![guild_id], guilds) == guilds[guild_id].streamers,
{
    assert(seq![guild_id].drop_last() =~= Seq::<u64>::empty());
    assert(seq![guild_id].last() == guild_id);
    assert(followed(Seq::<u64>::empty(), guilds) =~= Seq::<Seq<char>>::empty());
    assert(followed(seq![guild_id], guilds) == followed(Seq::<u64>::empty(), guilds)
        + guilds[guild_id].streamers);
    assert(Seq::<Seq<char>>::empty() + guilds[guild_id].streamers =~= guilds[guild_id].streamers);
}

/// The start-up list has one entry per streamer entry of the walked guilds:
/// its length is the sum of their list lengths.
pub proof fn law_followed_length(order: Seq<u64>, guilds: Map<u64, GuildConfigView>)
    ensures
        followed(order, guilds).len() == order.fold_left(
            0nat,
            |total: nat, guild_id: u64| total + guilds[guild_id].streamers.len(),
        ),
    decreases order.len(),
{
    if order.len() > 0 {
        law_followed_length(order.drop_last(), guilds);
    }
}

/// The list reply grows by one part per streamer: listing one streamer more
/// adds ", " and that streamer's name at the end; a single streamer is
/// listed alone.
pub proof fn law_list_reply_grows(names: Seq<Seq<char>>, name: Seq<char>)
    ensures
        list_text(seq![name]) == "Streamers: "@ + name,
        names.len() > 0 ==> list_text(names.push(name)) == list_text(names) + ", "@ + name,
{
    assert(seq![name].len() == 1);
    if names.len() > 0 {
        assert(names.push(name).drop_last() =~= names);
        assert(("Streamers: "@ + joined(names, ", "@)) + ", "@ + name =~= "Streamers: "@ + (joined(
            names,
            ", "@,
        ) + ", "@ + name));
    }
}

/// Every streamer of the list occurs in the joined text.
proof fn lemma_joined_contains(names: Seq<Seq<char>>, separator: Seq<char>, i: int)
    requires
        0 <= i < names.len(),
    ensures
        exists|start: int|
            0 <= start && start + names[i].len() <= joined(names, separator).len() && #[trigger] joined(
                names,
                separator,
            ).subrange(start, start + names[i].len()) == names[i],
    decreases names.len(),
{
    let text = joined(names, separator);
    if names.len() == 1 {
        assert(text == names[0]);
        assert(text.subrange(0, names[0].len() as int) =~= names[0]);
        assert(joined(names, separator).subrange(0, 0 + names[i].len() as int) == names[i]);
    } else if i == names.len() - 1 {
        assert(text == joined(names.drop_last(), separator) + separator + names.last());
        let start = text.len() - names.last().len();
        assert(text.subrange(start, start + names[i].len()) =~= names[i]);
        assert(joined(names, separator).subrange(start, start + names[i].len()) == names[i]);
    } else {
        lemma_joined_contains(names.drop_last(), separator, i);
        let earlier = joined(names.drop_last(), separator);
        assert(text == earlier + separator + names.last());
        assert(names.drop_last()[i] == names[i]);
        let start = choose|start: int|
            0 <= start && start + names[i].len() <= earlier.len() && #[trigger] earlier.subrange(
                start,
                start + names[i].len(),
            ) == names[i];
        assert(text.subrange(start, start + names[i].len()) =~= earlier.subrange(
            start,
            start + names[i].len(),
        ));
        assert(joined(names, separator).subrange(start, start + names[i].len()) == names[i]);
    }
}

/// Every streamer of the guild appears in the list reply.
pub proof fn law_list_reply_names_every_streamer(names: Seq<Seq<char>>, i: int)
    requires
        0 <= i < names.len(),
    ensures
        exists|start: int|
            0 <= start && start + names[i].len() <= list_text(names).len() && #[trigger] list_text(
                names,
            ).subrange(start, start + names[i].len()) == names[i],
{
    lemma_joined_contains(names, ", "@, i);
    let text = joined(names, ", "@);
    let start = choose|start: int|
        0 <= start && start + names[i].len() <= text.len() && #[trigger] text.subrange(
            start,
            start + names[i].len(),
        ) == names[i];
    let prefix = "Streamers: "@;
    assert(list_text(names) == prefix + text);
    assert(list_text(names).subrange(prefix.len() + start, prefix.len() + start + names[i].len())
        =~= text.subrange(start, start + names[i].len()));
}

/// The announcement starts with "The streamer ", names the whole streamer
/// right after it, and ends with the stream link "https://twitch.tv/"
/// followed by the whole streamer name.
pub proof fn law_live_text_shape(name: Seq<char>)
    ensures
        live_text(name).len() == 47 + 2 * name.len(),
        live_text(name).take(13) == "The streamer "@,
        live_text(name).subrange(13, 13 + name.len() as int) == name,
        live_text(name).subrange(29 + name.len() as int, 47 + name.len() as int) == "https://twitch.tv/"@,
        live_text(name).skip(47 + name.len() as int) == name,
{
    reveal_strlit("The streamer ");
    reveal_strlit(" is now live at https://twitch.tv/");
    reveal_strlit("https://twitch.tv/");
    let text = live_text(name);
    assert(text.take(13) =~= "The streamer "@);
    assert(text.subrange(13, 13 + name.len() as int) =~= name);
    assert(text.subrange(29 + name.len() as int, 47 + name.len() as int) =~= "https://twitch.tv/"@);
    assert(text.skip(47 + name.len() as int) =~= name);
}

/// Every welcome or reconnect message without a reconnect URL starts a
/// subscription listener and records its session id, whatever session the
/// client held before; nothing else about the client changes.
pub proof fn law_every_welcome_starts_listener(client: ClientView, id: Seq<char>)
    ensures
        after_event(client, ServerEventView::Welcome(id, None)) == (
            ClientView { session_id: Some(id), ..client },
            Ok::<OutcomeView, ProcessError>(OutcomeView::StartListener),
        ),
        after_event(client, ServerEventView::Reconnect(id, None)) == (
            ClientView { session_id: Some(id), ..client },
            Ok::<OutcomeView, ProcessError>(OutcomeView::StartListener),
        ),
{
}

/// A welcome or reconnect message with a reconnect URL that parses starts a
/// subscription listener, records its session id and moves the connection
/// to that URL, whatever session the client held before.
pub proof fn law_welcome_with_url_starts_listener(
    client: ClientView,
    id: Seq<char>,
    url: Seq<char>,
    parsed: Seq<char>,
)
    requires
        crate::websocket::parsed_url(url) == Some(parsed),
    ensures
        after_event(client, ServerEventView::Welcome(id, Some(url))) == (
            ClientView { session_id: Some(id), connect_url: parsed, ..client },
            Ok::<OutcomeView, ProcessError>(OutcomeView::StartListener),
        ),
        after_event(client, ServerEventView::Reconnect(id, Some(url))) == (
            ClientView { session_id: Some(id), connect_url: parsed, ..client },
            Ok::<OutcomeView, ProcessError>(OutcomeView::StartListener),
        ),
{
}

} // verus!
