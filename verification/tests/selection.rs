use roundtable::agent_act::ReactionFunctionArgs;
use roundtable::signal::RoundSignal;

fn reaction(urgency: usize) -> ReactionFunctionArgs {
    ReactionFunctionArgs { aggressiveness: urgency, thinking: format!("urgency {}", urgency) }
}

fn signal_of(entries: &[(&str, usize)]) -> RoundSignal {
    let mut signal = RoundSignal::new();
    for (name, urgency) in entries {
        signal.insert(name.to_string(), reaction(*urgency));
    }
    signal
}

#[test]
fn empty_signal_selects_nobody() {
    let signal = RoundSignal::new();
    assert_eq!(signal.len(), 0);
    assert_eq!(signal.select_speaker(), None);
}

#[test]
fn single_signal_is_selected() {
    let signal = signal_of(&[("A", 0)]);
    assert_eq!(signal.select_speaker(), Some("A".to_string()));
}

#[test]
fn unique_maximum_is_selected() {
    let signal = signal_of(&[("A", 2), ("B", 5), ("C", 3)]);
    assert_eq!(signal.select_speaker(), Some("B".to_string()));
}

#[test]
fn unique_maximum_is_selected_in_every_order() {
    let orders: [[(&str, usize); 3]; 6] = [
        [("A", 2), ("B", 5), ("C", 3)],
        [("A", 2), ("C", 3), ("B", 5)],
        [("B", 5), ("A", 2), ("C", 3)],
        [("B", 5), ("C", 3), ("A", 2)],
        [("C", 3), ("A", 2), ("B", 5)],
        [("C", 3), ("B", 5), ("A", 2)],
    ];
    for order in orders.iter() {
        assert_eq!(signal_of(order).select_speaker(), Some("B".to_string()));
    }
}

#[test]
fn tied_maxima_select_one_of_the_tied() {
    let orders: [[(&str, usize); 3]; 6] = [
        [("A", 5), ("B", 5), ("C", 3)],
        [("A", 5), ("C", 3), ("B", 5)],
        [("B", 5), ("A", 5), ("C", 3)],
        [("B", 5), ("C", 3), ("A", 5)],
        [("C", 3), ("A", 5), ("B", 5)],
        [("C", 3), ("B", 5), ("A", 5)],
    ];
    for order in orders.iter() {
        let speaker = signal_of(order).select_speaker();
        assert!(speaker == Some("A".to_string()) || speaker == Some("B".to_string()));
        assert_ne!(speaker, Some("C".to_string()));
    }
}

#[test]
fn among_tied_maxima_the_last_signal_wins() {
    assert_eq!(
        signal_of(&[("A", 5), ("B", 5), ("C", 3)]).select_speaker(),
        Some("B".to_string())
    );
    assert_eq!(
        signal_of(&[("B", 5), ("A", 5), ("C", 3)]).select_speaker(),
        Some("A".to_string())
    );
    assert_eq!(
        signal_of(&[("A", 1), ("B", 1), ("C", 1)]).select_speaker(),
        Some("C".to_string())
    );
}

#[test]
fn selection_is_repeatable_and_leaves_the_signal_alone() {
    let signal = signal_of(&[("A", 4), ("B", 4), ("C", 1)]);
    let first = signal.select_speaker();
    let second = signal.select_speaker();
    assert_eq!(first, second);
    assert_eq!(signal.len(), 3);
    assert_eq!(signal.get(&"C".to_string()), Some(&reaction(1)));
}

#[test]
fn get_finds_what_was_inserted() {
    let signal = signal_of(&[("A", 2), ("B", 5)]);
    assert_eq!(signal.get(&"A".to_string()), Some(&reaction(2)));
    assert_eq!(signal.get(&"B".to_string()), Some(&reaction(5)));
    assert_eq!(signal.get(&"C".to_string()), None);
    assert_eq!(signal.get(&"".to_string()), None);
}

#[test]
fn a_name_that_signals_again_keeps_its_place_with_the_later_reaction() {
    let mut signal = signal_of(&[("A", 5), ("B", 5)]);
    signal.insert("A".to_string(), reaction(5));
    assert_eq!(signal.len(), 2);
    // A still stands before B, so among the tied B is the last.
    assert_eq!(signal.select_speaker(), Some("B".to_string()));
    signal.insert("A".to_string(), reaction(9));
    assert_eq!(signal.len(), 2);
    assert_eq!(signal.get(&"A".to_string()), Some(&reaction(9)));
    assert_eq!(signal.select_speaker(), Some("A".to_string()));
    signal.insert("B".to_string(), reaction(0));
    assert_eq!(signal.get(&"B".to_string()), Some(&reaction(0)));
    assert_eq!(signal.len(), 2);
}

#[test]
fn largest_urgency_is_handled() {
    let signal = signal_of(&[("A", usize::MAX), ("B", 0), ("C", usize::MAX - 1)]);
    assert_eq!(signal.select_speaker(), Some("A".to_string()));
}
