use streamer_notifier::action::Action;
use streamer_notifier::listener::{ListenerStep, Subscriptions};

fn step_name(step: &ListenerStep) -> String {
    match step {
        ListenerStep::Subscribe(name) => format!("subscribe {}", name),
        ListenerStep::Unsubscribe(id) => format!("unsubscribe {}", id),
        ListenerStep::Stop => "stop".to_string(),
        ListenerStep::Continue => "continue".to_string(),
    }
}

fn table_with(names: &[(&str, &str)]) -> Subscriptions {
    let mut table = Subscriptions::new();
    for (name, id) in names {
        table.subscribed(name.to_string(), id.to_string());
    }
    table
}

fn msg(name: &str, action: Action) -> (String, Action) {
    (name.to_string(), action)
}

#[test]
fn new_streamer_needs_subscription() {
    let mut table = Subscriptions::new();
    let step = table.handle(msg("a", Action::Add));
    assert_eq!(step_name(&step), "subscribe a");
    assert_eq!(table.count_of(&"a".to_string()), 0);
    table.subscribed("a".to_string(), "id-a".to_string());
    assert_eq!(table.count_of(&"a".to_string()), 1);
}

#[test]
fn known_streamer_counts_up_and_down() {
    let mut table = table_with(&[("a", "id-a"), ("b", "id-b")]);
    assert_eq!(step_name(&table.handle(msg("a", Action::Add))), "continue");
    assert_eq!(table.count_of(&"a".to_string()), 2);
    assert_eq!(step_name(&table.handle(msg("a", Action::Remove))), "continue");
    assert_eq!(table.count_of(&"a".to_string()), 1);
    assert_eq!(step_name(&table.handle(msg("a", Action::Remove))), "unsubscribe id-a");
    assert_eq!(table.count_of(&"a".to_string()), 0);
    assert_eq!(table.into_names(), vec!["b".to_string()]);
}

#[test]
fn names_are_matched_exactly() {
    let mut table = table_with(&[("a", "id-a"), ("b", "id-b")]);
    assert_eq!(step_name(&table.handle(msg("A", Action::Add))), "subscribe A");
    assert_eq!(step_name(&table.handle(msg("B", Action::Remove))), "continue");
    assert_eq!(table.count_of(&"b".to_string()), 1);
}

#[test]
fn removing_the_last_streamer_stops_with_nothing_left() {
    let mut table = table_with(&[("a", "id-a")]);
    assert_eq!(step_name(&table.handle(msg("a", Action::Remove))), "stop");
    assert!(table.into_names().is_empty());
}

#[test]
fn single_streamer_followed_twice_counts_down() {
    let mut table = table_with(&[("a", "id-a")]);
    assert_eq!(step_name(&table.handle(msg("a", Action::Add))), "continue");
    assert_eq!(step_name(&table.handle(msg("a", Action::Remove))), "continue");
    assert_eq!(table.count_of(&"a".to_string()), 1);
    assert_eq!(step_name(&table.handle(msg("a", Action::Remove))), "stop");
    assert!(table.into_names().is_empty());
}

#[test]
fn removing_unknown_streamer_from_single_table_continues() {
    let mut table = table_with(&[("a", "id-a")]);
    assert_eq!(step_name(&table.handle(msg("zzz", Action::Remove))), "continue");
    assert_eq!(table.into_names(), vec!["a".to_string()]);
}

#[test]
fn abort_stops() {
    let mut table = table_with(&[("a", "id-a"), ("b", "id-b")]);
    assert_eq!(step_name(&table.handle(msg("", Action::Abort))), "stop");
    let mut names = table.into_names();
    names.sort();
    assert_eq!(names, vec!["a".to_string(), "b".to_string()]);
}

#[test]
fn subscribing_again_resets_the_count() {
    let mut table = table_with(&[("a", "id-a"), ("b", "id-b")]);
    table.handle(msg("a", Action::Add));
    table.subscribed("a".to_string(), "id-a2".to_string());
    assert_eq!(table.count_of(&"a".to_string()), 1);
    assert_eq!(step_name(&table.handle(msg("a", Action::Remove))), "unsubscribe id-a2");
}

#[test]
fn add_then_remove_restores_table() {
    let mut table = table_with(&[("a", "id-a")]);
    assert_eq!(step_name(&table.handle(msg("n", Action::Add))), "subscribe n");
    table.subscribed("n".to_string(), "id-n".to_string());
    assert_eq!(step_name(&table.handle(msg("n", Action::Remove))), "unsubscribe id-n");
    assert_eq!(table.into_names(), vec!["a".to_string()]);
}
