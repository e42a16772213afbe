use keyboard_presence::event::Event;
use keyboard_presence::outcome::CommandOutcome;
use keyboard_presence::setting::{transition, Direction};
use keyboard_presence::tracker::PresenceTracker;

fn add(id: &str) -> Event {
    Event::Add(id.to_string())
}

fn remove(id: &str) -> Event {
    Event::Remove(id.to_string())
}

#[test]
fn fresh_tracker_is_empty() {
    let tracker = PresenceTracker::new();
    assert!(tracker.is_empty());
    assert!(!tracker.contains("A"));
}

#[test]
fn transition_covers_all_four_cases() {
    assert_eq!(transition(true, true), None);
    assert_eq!(transition(false, false), None);
    assert_eq!(transition(true, false), Some(Direction::ToNonEmpty));
    assert_eq!(transition(false, true), Some(Direction::ToEmpty));
}

#[test]
fn single_add_on_fresh_state_crosses_to_non_empty() {
    let mut tracker = PresenceTracker::new();
    let crossed = tracker.process_all(&vec![add("A")]);
    assert_eq!(crossed, vec![Direction::ToNonEmpty]);
    assert!(tracker.contains("A"));
    assert!(!tracker.is_empty());
}

#[test]
fn two_devices_come_and_go() {
    let mut tracker = PresenceTracker::new();
    assert_eq!(tracker.process(add("A")), Some(Direction::ToNonEmpty));
    assert_eq!(tracker.process(add("B")), None);
    assert_eq!(tracker.process(remove("A")), None);
    assert!(!tracker.contains("A"));
    assert!(tracker.contains("B"));
    assert_eq!(tracker.process(remove("B")), Some(Direction::ToEmpty));
    assert!(tracker.is_empty());
}

#[test]
fn two_devices_come_and_go_as_a_queue() {
    let mut tracker = PresenceTracker::new();
    let crossed = tracker.process_all(&vec![add("A"), add("B"), remove("A"), remove("B")]);
    assert_eq!(crossed, vec![Direction::ToNonEmpty, Direction::ToEmpty]);
    assert!(tracker.is_empty());
}

#[test]
fn duplicate_remove_triggers_nothing() {
    let mut tracker = PresenceTracker::new();
    assert_eq!(tracker.process(add("A")), Some(Direction::ToNonEmpty));
    assert_eq!(tracker.process(remove("A")), Some(Direction::ToEmpty));
    assert_eq!(tracker.process(remove("A")), None);
    assert!(tracker.is_empty());
}

#[test]
fn duplicate_remove_triggers_nothing_as_a_queue() {
    let mut tracker = PresenceTracker::new();
    let crossed = tracker.process_all(&vec![add("A"), remove("A"), remove("A")]);
    assert_eq!(crossed, vec![Direction::ToNonEmpty, Direction::ToEmpty]);
    assert!(tracker.is_empty());
}

#[test]
fn repeated_add_triggers_once() {
    let mut tracker = PresenceTracker::new();
    assert_eq!(tracker.process(add("X")), Some(Direction::ToNonEmpty));
    assert_eq!(tracker.process(add("X")), None);
    assert!(tracker.contains("X"));
    assert_eq!(tracker.process(remove("X")), Some(Direction::ToEmpty));
    assert!(tracker.is_empty());
}

#[test]
fn burst_of_adds_triggers_once() {
    let mut tracker = PresenceTracker::new();
    let burst: Vec<Event> = (0..25).map(|i| add(&format!("dev{}", i))).collect();
    let crossed = tracker.process_all(&burst);
    assert_eq!(crossed, vec![Direction::ToNonEmpty]);
    for i in 0..25 {
        assert!(tracker.contains(&format!("dev{}", i)));
    }
}

#[test]
fn removing_one_by_one_triggers_on_the_last() {
    let mut tracker = PresenceTracker::new();
    tracker.process_all(&vec![add("A"), add("B"), add("C")]);
    assert_eq!(tracker.process(remove("B")), None);
    assert_eq!(tracker.process(remove("C")), None);
    assert_eq!(tracker.process(remove("A")), Some(Direction::ToEmpty));
}

#[test]
fn remove_of_unknown_identity_is_absorbed() {
    let mut tracker = PresenceTracker::new();
    assert_eq!(tracker.process(remove("never-seen")), None);
    assert!(tracker.is_empty());
    assert_eq!(tracker.process(add("A")), Some(Direction::ToNonEmpty));
    assert_eq!(tracker.process(remove("never-seen")), None);
    assert!(tracker.contains("A"));
    assert!(!tracker.contains("never-seen"));
}

#[test]
fn presence_set_is_the_fold_of_the_events() {
    let mut tracker = PresenceTracker::new();
    let events = vec![
        add("A"),
        add("B"),
        add("A"),
        remove("C"),
        remove("A"),
        add("C"),
        remove("A"),
        add("D"),
        remove("D"),
    ];
    let crossed = tracker.process_all(&events);
    assert_eq!(crossed, vec![Direction::ToNonEmpty]);
    assert!(!tracker.contains("A"));
    assert!(tracker.contains("B"));
    assert!(tracker.contains("C"));
    assert!(!tracker.contains("D"));
}

#[test]
fn edges_alternate_over_a_long_run() {
    let mut tracker = PresenceTracker::new();
    let events = vec![
        add("A"),
        remove("A"),
        add("B"),
        add("C"),
        remove("B"),
        remove("C"),
        remove("C"),
        add("A"),
    ];
    let crossed = tracker.process_all(&events);
    assert_eq!(
        crossed,
        vec![
            Direction::ToNonEmpty,
            Direction::ToEmpty,
            Direction::ToNonEmpty,
            Direction::ToEmpty,
            Direction::ToNonEmpty,
        ]
    );
    assert!(tracker.contains("A"));
}

#[test]
fn empty_queue_changes_nothing() {
    let mut tracker = PresenceTracker::new();
    tracker.process(add("A"));
    let crossed = tracker.process_all(&Vec::new());
    assert_eq!(crossed, Vec::<Direction>::new());
    assert!(tracker.contains("A"));
}

#[test]
fn process_all_continues_from_the_current_state() {
    let mut tracker = PresenceTracker::new();
    tracker.process(add("A"));
    let crossed = tracker.process_all(&vec![add("B"), remove("A"), remove("B")]);
    assert_eq!(crossed, vec![Direction::ToEmpty]);
    assert!(tracker.is_empty());
}

#[test]
fn tracking_goes_on_after_a_failed_command() {
    let mut tracker = PresenceTracker::new();
    assert_eq!(tracker.process(add("A")), Some(Direction::ToNonEmpty));
    let failed = CommandOutcome::from_run(Some(Ok(Some(1))));
    assert!(failed.is_failure());
    assert!(tracker.contains("A"));
    assert_eq!(tracker.process(add("B")), None);
    assert_eq!(tracker.process(remove("A")), None);
    assert_eq!(tracker.process(remove("B")), Some(Direction::ToEmpty));
    let unavailable = CommandOutcome::from_run(Some(Err("no such file".to_string())));
    assert!(unavailable.is_failure());
    assert!(tracker.is_empty());
    assert_eq!(tracker.process(add("A")), Some(Direction::ToNonEmpty));
    assert!(tracker.contains("A"));
}

#[test]
fn identities_are_compared_as_whole_strings() {
    let mut tracker = PresenceTracker::new();
    tracker.process(add("/sys/devices/usb1/1-1"));
    assert_eq!(tracker.process(remove("/sys/devices/usb1/1-10")), None);
    assert!(tracker.contains("/sys/devices/usb1/1-1"));
    assert_eq!(tracker.process(remove("/sys/devices/usb1/1-1")), Some(Direction::ToEmpty));
}

#[test]
fn event_accessors() {
    let event = add("A");
    assert!(event.is_add());
    assert_eq!(event.identity(), "A");
    let event = remove("B");
    assert!(!event.is_add());
    assert_eq!(event.identity(), "B");
    assert_eq!(event.duplicate(), remove("B"));
}
