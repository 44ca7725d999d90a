//! The texts the bot sends: command replies and live announcements.

use vstd::prelude::*;

use crate::names::names_of;

verus! {

/// `names` joined with `separator` between neighbours.
pub open spec fn joined(names: Seq<Seq<char>>, separator: Seq<char>) -> Seq<char>
    decreases names.len(),
{
    if names.len() == 0 {
        Seq::empty()
    } else if names.len() == 1 {
        names[0]
    } else {
        joined(names.drop_last(), separator) + separator + names.last()
    }
}

/// Joins the strings of `list`, putting `separator` between neighbours.
pub fn join(list: &Vec<String>, separator: &str) -> (text: String)
    ensures
        text@ == joined(names_of(list@), separator@),
{
    let mut text = String::new();
    let mut i: usize = 0;
    while i < list.len()
        invariant
            i <= list.len(),
            text@ == joined(names_of(list@).take(i as int), separator@),
        decreases list.len() - i,
    {
        assert(names_of(list@).take(i + 1).drop_last() =~= names_of(list@).take(i as int));
        if i > 0 {
            text.append(separator);
        }
        text.append(list[i].as_str());
        proof {
            if i == 0 {
                assert(text@ =~= names_of(list@).take(1)[0]);
            }
        }
        i = i + 1;
    }
    assert(names_of(list@).take(list.len() as int) =~= names_of(list@));
    text
}

/// The announcement that `name` went live.
pub open spec fn live_text(name: Seq<char>) -> Seq<char> {
    "The streamer "@ + name + " is now live at https://twitch.tv/"@ + name
}

/// The announcement that `streamer` went live, with a link to the stream.
pub fn live_message(streamer: &str) -> (text: String)
    ensures
        text@ == live_text(streamer@),
{
    let mut text = "The streamer ".to_owned();
    text.append(streamer);
    text.append(" is now live at https://twitch.tv/");
    text.append(streamer);
    text
}

} // verus!
