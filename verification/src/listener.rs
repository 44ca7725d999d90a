//! The subscription listener: one EventSub subscription per followed
//! streamer, shared by all guilds that follow it through a counter.
//!
//! The listener receives [`StreamerMessage`]s. For each it changes its table
//! and says what outside work to do next ([`ListenerStep`]); a new
//! subscription is recorded with [`Subscriptions::subscribed`] once it was
//! created.

use vstd::prelude::*;

use crate::action::{Action, StreamerMessage};

verus! {

/// One followed streamer: how many follows it has and the id of its
/// subscription.
struct Streamer {
    subscriptions: u32,
    id: String,
}

/// The abstract value of one table entry.
pub struct SubscriptionView {
    /// The id of the subscription.
    pub id: Seq<char>,
    /// How many follows the streamer has.
    pub count: nat,
}

/// What the listener does after a message.
pub enum ListenerStep {
    /// Create a subscription for this streamer, then record it with
    /// [`Subscriptions::subscribed`].
    Subscribe(String),
    /// Delete the subscription with this id (already gone from the table).
    Unsubscribe(String),
    /// Stop listening and hand back the followed streamers.
    Stop,
    /// Nothing to do; wait for the next message.
    Continue,
}

/// The abstract value of a [`ListenerStep`].
pub enum StepView {
    Subscribe(Seq<char>),
    Unsubscribe(Seq<char>),
    Stop,
    Continue,
}

impl View for ListenerStep {
    type V = StepView;

    open spec fn view(&self) -> StepView {
        match self {
            ListenerStep::Subscribe(name) => StepView::Subscribe(name@),
            ListenerStep::Unsubscribe(id) => StepView::Unsubscribe(id@),
            ListenerStep::Stop => StepView::Stop,
            ListenerStep::Continue => StepView::Continue,
        }
    }
}

/// A table is valid when it is finite and every streamer in it has at
/// least one follow.
pub open spec fn valid_table(table: Map<Seq<char>, SubscriptionView>) -> bool {
    &&& table.dom().finite()
    &&& forall|name: Seq<char>| #[trigger] table.contains_key(name) ==> table[name].count >= 1
}

/// The table once a subscription with `id` was made for `name`: the
/// streamer has one follow (an entry already there is replaced).
pub open spec fn after_subscribe(
    table: Map<Seq<char>, SubscriptionView>,
    name: Seq<char>,
    id: Seq<char>,
) -> Map<Seq<char>, SubscriptionView> {
    table.insert(name, SubscriptionView { id, count: 1 })
}

/// The table after the message (`name`, `action`), and what to do next.
///
/// * `Add`: a followed streamer gets one more follow; an unknown one needs a
///   subscription first (the table stays as it is until it is recorded).
/// * `Remove`: a streamer with more than one follow loses a follow; one with
///   a single follow is dropped and its subscription deleted, except when
///   it was the last streamer: then the table is empty and the listener
///   stops, so that the connection is closed. An unknown name changes
///   nothing.
/// * `Abort`: the listener stops.
pub open spec fn after_message(
    table: Map<Seq<char>, SubscriptionView>,
    name: Seq<char>,
    action: Action,
) -> (Map<Seq<char>, SubscriptionView>, StepView) {
    match action {
        Action::Add => if table.contains_key(name) {
            (
                table.insert(
                    name,
                    SubscriptionView { id: table[name].id, count: table[name].count + 1 },
                ),
                StepView::Continue,
            )
        } else {
            (table, StepView::Subscribe(name))
        },
        Action::Remove => if table.contains_key(name) {
            if table[name].count == 1 {
                if table.len() == 1 {
                    (table.remove(name), StepView::Stop)
                } else {
                    (table.remove(name), StepView::Unsubscribe(table[name].id))
                }
            } else {
                (
                    table.insert(
                        name,
                        SubscriptionView { id: table[name].id, count: (table[name].count - 1) as nat },
                    ),
                    StepView::Continue,
                )
            }
        } else {
            (table, StepView::Continue)
        },
        Action::Abort => (table, StepView::Stop),
    }
}

/// The streamers the listener follows: one entry per streamer name, with
/// its subscription id and its number of follows.
pub struct Subscriptions {
    entries: Vec<(String, Streamer)>,
}

/// The names of a list of entries.
spec fn keys_of(entries: Seq<(String, Streamer)>) -> Seq<Seq<char>> {
    entries.map_values(|e: (String, Streamer)| e.0@)
}

/// The abstract value of one entry.
spec fn entry_view(streamer: Streamer) -> SubscriptionView {
    SubscriptionView { id: streamer.id@, count: streamer.subscriptions as nat }
}

/// The table a list of entries with distinct names stands for.
spec fn table_of(entries: Seq<(String, Streamer)>) -> Map<Seq<char>, SubscriptionView> {
    Map::new(
        |name: Seq<char>| keys_of(entries).contains(name),
        |name: Seq<char>| entry_view(entries[keys_of(entries).index_of(name)].1),
    )
}

/// In a list of entries with distinct names, the entry at `i` is the one
/// the table finds under its name.
proof fn lemma_index_of_key(entries: Seq<(String, Streamer)>, i: int)
    requires
        keys_of(entries).no_duplicates(),
        0 <= i < entries.len(),
    ensures
        keys_of(entries).index_of(entries[i].0@) == i,
        table_of(entries).contains_key(entries[i].0@),
        table_of(entries)[entries[i].0@] == entry_view(entries[i].1),
{
    let keys = keys_of(entries);
    assert(keys[i] == entries[i].0@);
    assert(keys.contains(entries[i].0@));
    let j = keys.index_of(entries[i].0@);
    assert(0 <= j < keys.len() && keys[j] == entries[i].0@);
}

/// The table of a list of entries with distinct names has one key per entry.
proof fn lemma_table_len(entries: Seq<(String, Streamer)>)
    requires
        keys_of(entries).no_duplicates(),
    ensures
        table_of(entries).dom() == keys_of(entries).to_set(),
        table_of(entries).dom().finite(),
        table_of(entries).len() == entries.len(),
{
    assert(table_of(entries).dom() =~= keys_of(entries).to_set());
    keys_of(entries).unique_seq_to_set();
    vstd::seq_lib::seq_to_set_is_finite(keys_of(entries));
}

/// Replacing the entry at `i` by one with the same name replaces the
/// table's value under that name.
proof fn lemma_update(entries: Seq<(String, Streamer)>, i: int, entry: (String, Streamer))
    requires
        keys_of(entries).no_duplicates(),
        0 <= i < entries.len(),
        entry.0@ == entries[i].0@,
    ensures
        keys_of(entries.update(i, entry)) == keys_of(entries),
        table_of(entries.update(i, entry)) == table_of(entries).insert(entry.0@, entry_view(entry.1)),
{
    let after = entries.update(i, entry);
    assert(keys_of(after) =~= keys_of(entries));
    lemma_index_of_key(after, i);
    assert forall|name: Seq<char>| #[trigger] table_of(after).contains_key(name) && name != entry.0@
        implies table_of(after)[name] == table_of(entries)[name] by {
        let j = keys_of(after).index_of(name);
        lemma_index_of_key(after, j);
        lemma_index_of_key(entries, j);
    }
    assert(table_of(after) =~= table_of(entries).insert(entry.0@, entry_view(entry.1)));
}

/// Removing the entry at `i` removes its name from the table.
proof fn lemma_remove(entries: Seq<(String, Streamer)>, i: int)
    requires
        keys_of(entries).no_duplicates(),
        0 <= i < entries.len(),
    ensures
        keys_of(entries.remove(i)) == keys_of(entries).remove(i),
        keys_of(entries.remove(i)).no_duplicates(),
        table_of(entries.remove(i)) == table_of(entries).remove(entries[i].0@),
{
    let after = entries.remove(i);
    let name = entries[i].0@;
    assert(keys_of(after) =~= keys_of(entries).remove(i));
    assert forall|a: int, b: int|
        0 <= a < keys_of(after).len() && 0 <= b < keys_of(after).len() && a != b implies keys_of(
        after,
    )[a] != keys_of(after)[b] by {
        let a0 = if a < i { a } else { a + 1 };
        let b0 = if b < i { b } else { b + 1 };
        assert(keys_of(after)[a] == keys_of(entries)[a0]);
        assert(keys_of(after)[b] == keys_of(entries)[b0]);
    }
    assert forall|n: Seq<char>| table_of(after).contains_key(n) <==> #[trigger] table_of(
        entries,
    ).remove(name).contains_key(n) by {
        if keys_of(after).contains(n) {
            let j = choose|j: int| 0 <= j < keys_of(after).len() && keys_of(after)[j] == n;
            let j0 = if j < i { j } else { j + 1 };
            assert(keys_of(entries)[j0] == n);
            assert(keys_of(entries)[i] == name);
        }
        if keys_of(entries).contains(n) && n != name {
            let j = choose|j: int| 0 <= j < keys_of(entries).len() && keys_of(entries)[j] == n;
            assert(j != i);
            let j1 = if j < i { j } else { j - 1 };
            assert(keys_of(after)[j1] == n);
        }
    }
    assert forall|n: Seq<char>| #[trigger] table_of(after).contains_key(n) implies table_of(
        after,
    )[n] == table_of(entries)[n] by {
        let j = keys_of(after).index_of(n);
        lemma_index_of_key(after, j);
        let j0 = if j < i { j } else { j + 1 };
        assert(after[j] == entries[j0]);
        lemma_index_of_key(entries, j0);
    }
    assert(table_of(after) =~= table_of(entries).remove(name));
}

/// Appending an entry with a new name adds it to the table.
proof fn lemma_push(entries: Seq<(String, Streamer)>, entry: (String, Streamer))
    requires
        keys_of(entries).no_duplicates(),
        !keys_of(entries).contains(entry.0@),
    ensures
        keys_of(entries.push(entry)) == keys_of(entries).push(entry.0@),
        keys_of(entries.push(entry)).no_duplicates(),
        table_of(entries.push(entry)) == table_of(entries).insert(entry.0@, entry_view(entry.1)),
{
    let after = entries.push(entry);
    assert(keys_of(after) =~= keys_of(entries).push(entry.0@));
    assert forall|a: int, b: int|
        0 <= a < keys_of(after).len() && 0 <= b < keys_of(after).len() && a != b implies keys_of(
        after,
    )[a] != keys_of(after)[b] by {
        if a == entries.len() {
            assert(keys_of(entries)[b] == keys_of(after)[b]);
        } else if b == entries.len() {
            assert(keys_of(entries)[a] == keys_of(after)[a]);
        }
    }
    lemma_index_of_key(after, entries.len() as int);
    assert forall|n: Seq<char>| #[trigger] table_of(after).contains_key(n) && n != entry.0@
        implies table_of(entries).contains_key(n) && table_of(after)[n] == table_of(entries)[n] by {
        let j = keys_of(after).index_of(n);
        lemma_index_of_key(after, j);
        assert(j < entries.len());
        assert(keys_of(entries)[j] == n);
        lemma_index_of_key(entries, j);
    }
    assert forall|n: Seq<char>| #[trigger] table_of(entries).contains_key(n) implies table_of(
        after,
    ).contains_key(n) by {
        let j = keys_of(entries).index_of(n);
        assert(keys_of(after)[j] == n);
    }
    assert(table_of(after) =~= table_of(entries).insert(entry.0@, entry_view(entry.1)));
}

/// The index of the entry named `name`, if any.
fn find_entry(entries: &Vec<(String, Streamer)>, name: &String) -> (index: Option<usize>)
    ensures
        match index {
            Some(i) => i < entries@.len() && entries@[i as int].0@ == name@,
            None => !keys_of(entries@).contains(name@),
        },
{
    let mut i: usize = 0;
    while i < entries.len()
        invariant
            i <= entries@.len(),
            forall|j: int| 0 <= j < i ==> entries@[j].0@ != name@,
        decreases entries@.len() - i,
    {
        if entries[i].0 == *name {
            return Some(i);
        }
        i = i + 1;
    }
    assert forall|j: int| 0 <= j < keys_of(entries@).len() implies keys_of(
        entries@,
    )[j] != name@ by {
        assert(keys_of(entries@)[j] == entries@[j].0@);
    }
    None
}

impl View for Subscriptions {
    type V = Map<Seq<char>, SubscriptionView>;

    closed spec fn view(&self) -> Map<Seq<char>, SubscriptionView> {
        table_of(self.entries@)
    }
}

/// Entries with distinct names and at least one follow each stand for a
/// valid table.
proof fn lemma_valid_table(entries: Seq<(String, Streamer)>)
    requires
        keys_of(entries).no_duplicates(),
        forall|i: int| 0 <= i < entries.len() ==> #[trigger] entries[i].1.subscriptions >= 1,
    ensures
        valid_table(table_of(entries)),
{
    lemma_table_len(entries);
    assert forall|name: Seq<char>| #[trigger] table_of(entries).contains_key(name) implies table_of(
        entries,
    )[name].count >= 1 by {
        let i = keys_of(entries).index_of(name);
        lemma_index_of_key(entries, i);
    }
}

impl Subscriptions {
    /// Distinct names, every streamer with at least one follow.
    #[verifier::type_invariant]
    spec fn wf(self) -> bool {
        &&& keys_of(self.entries@).no_duplicates()
        &&& forall|i: int|
            0 <= i < self.entries@.len() ==> #[trigger] self.entries@[i].1.subscriptions >= 1
    }

    /// An empty table.
    pub fn new() -> (table: Subscriptions)
        ensures
            valid_table(table@),
            table@ == Map::<Seq<char>, SubscriptionView>::empty(),
    {
        let table = Subscriptions { entries: Vec::new() };
        assert(table@ =~= Map::<Seq<char>, SubscriptionView>::empty());
        table
    }

    /// How many follows `name` has (0 when it is not followed).
    pub fn count_of(&self, name: &String) -> (count: u32)
        ensures
            self@.contains_key(name@) ==> count == self@[name@].count,
            !self@.contains_key(name@) ==> count == 0,
    {
        proof {
            use_type_invariant(self);
        }
        match find_entry(&self.entries, name) {
            Some(i) => {
                proof {
                    lemma_index_of_key(self.entries@, i as int);
                }
                self.entries[i].1.subscriptions
            },
            None => 0,
        }
    }

    /// Records that `name` now has a subscription with `id` and one follow
    /// (an entry already there is replaced).
    pub fn subscribed(&mut self, name: String, id: String)
        ensures
            valid_table(final(self)@),
            final(self)@ == after_subscribe(old(self)@, name@, id@),
    {
        proof {
            use_type_invariant(&*self);
            lemma_valid_table(self.entries@);
        }
        let mut entries: Vec<(String, Streamer)> = Vec::new();
        std::mem::swap(&mut entries, &mut self.entries);
        let entry = (name, Streamer { subscriptions: 1, id });
        match find_entry(&entries, &entry.0) {
            Some(i) => {
                proof {
                    lemma_update(entries@, i as int, entry);
                }
                entries.set(i, entry);
            },
            None => {
                proof {
                    lemma_push(entries@, entry);
                }
                entries.push(entry);
            },
        }
        self.entries = entries;
    }

    /// Handles one message and says what to do next; see [`after_message`].
    pub fn handle(&mut self, message: StreamerMessage) -> (step: ListenerStep)
        requires
            message.1 == Action::Add && old(self)@.contains_key(message.0@) ==> old(
                self,
            )@[message.0@].count < u32::MAX,
        ensures
            valid_table(final(self)@),
            (final(self)@, step@) == after_message(old(self)@, message.0@, message.1),
    {
        proof {
            use_type_invariant(&*self);
            lemma_valid_table(self.entries@);
            lemma_table_len(self.entries@);
        }
        let mut entries: Vec<(String, Streamer)> = Vec::new();
        std::mem::swap(&mut entries, &mut self.entries);
        let (name, action) = message;
        let step = match action {
            Action::Add => match find_entry(&entries, &name) {
                Some(i) => {
                    proof {
                        lemma_index_of_key(entries@, i as int);
                    }
                    let count = entries[i].1.subscriptions;
                    let id = entries[i].1.id.clone();
                    let entry = (name, Streamer { subscriptions: count + 1, id });
                    proof {
                        lemma_update(entries@, i as int, entry);
                    }
                    entries.set(i, entry);
                    ListenerStep::Continue
                },
                None => ListenerStep::Subscribe(name),
            },
            Action::Remove => match find_entry(&entries, &name) {
                Some(i) => {
                    proof {
                        lemma_index_of_key(entries@, i as int);
                    }
                    let count = entries[i].1.subscriptions;
                    if count == 1 {
                        let last = entries.len() == 1;
                        proof {
                            lemma_remove(entries@, i as int);
                        }
                        let (_, streamer) = entries.remove(i);
                        if last {
                            ListenerStep::Stop
                        } else {
                            ListenerStep::Unsubscribe(streamer.id)
                        }
                    } else {
                        let id = entries[i].1.id.clone();
                        let entry = (name, Streamer { subscriptions: count - 1, id });
                        proof {
                            lemma_update(entries@, i as int, entry);
                        }
                        entries.set(i, entry);
                        ListenerStep::Continue
                    }
                },
                None => ListenerStep::Continue,
            },
            Action::Abort => ListenerStep::Stop,
        };
        self.entries = entries;
        step
    }

    /// The followed streamers, each once, in no particular order.
    pub fn into_names(self) -> (names: Vec<String>)
        ensures
            names@.map_values(|s: String| s@).no_duplicates(),
            names@.map_values(|s: String| s@).to_set() == self@.dom(),
    {
        proof {
            use_type_invariant(&self);
            lemma_table_len(self.entries@);
        }
        let ghost keys = keys_of(self.entries@);
        let mut names: Vec<String> = Vec::new();
        let mut i: usize = 0;
        while i < self.entries.len()
            invariant
                i <= self.entries@.len(),
                names@.len() == i,
                keys == keys_of(self.entries@),
                forall|j: int| 0 <= j < i ==> #[trigger] names@[j]@ == keys[j],
            decreases self.entries@.len() - i,
        {
            names.push(self.entries[i].0.clone());
            i = i + 1;
        }
        assert(names@.map_values(|s: String| s@) =~= keys);
        names
    }
}

} // verus!
