//! Tests for the polling decision logic: rising-edge detection, change
//! notification, termination, and the end-to-end dispatch scenario.

use deckcore::actions::{ActionRegistry, Effect};
use deckcore::config::{Action, ButtonConfig, Config, Page};
use deckcore::constants::{BUTTON_COUNT, BUTTON_DATA_OFFSET};
use deckcore::polling::{PollEvent, action_for_button, poll_step, rising_edges};
use deckcore::session::{DeviceInfo, StreamDeck};

fn report_with(pressed: &[usize]) -> Vec<u8> {
    let mut raw = vec![0u8; 32];
    for &i in pressed {
        raw[BUTTON_DATA_OFFSET + i] = 1;
    }
    raw
}

#[test]
fn rising_edges_sees_only_new_presses() {
    let mut prev = vec![false; BUTTON_COUNT];
    prev[1] = true;
    prev[4] = true;
    let mut curr = vec![false; BUTTON_COUNT];
    curr[1] = true;  // held: no edge
    curr[2] = true;  // new press: edge
    curr[9] = true;  // new press: edge
    // button 4 released: no edge
    let edges = rising_edges(&prev, &curr);
    assert_eq!(edges, vec![2, 9]);
}

#[test]
fn rising_edge_sequence_dispatches_exactly_once() {
    // [false,false] -> [true,false] -> [true,false] -> [false,false]:
    // one dispatch at the first transition, none on the repeat, none on
    // release.
    let s0 = vec![false; BUTTON_COUNT];
    let mut s1 = vec![false; BUTTON_COUNT];
    s1[0] = true;
    let s2 = s1.clone();
    let s3 = vec![false; BUTTON_COUNT];
    let mut dispatches = 0;
    dispatches += rising_edges(&s0, &s1).len();
    dispatches += rising_edges(&s1, &s2).len();
    dispatches += rising_edges(&s2, &s3).len();
    assert_eq!(dispatches, 1);
}

#[test]
fn poll_step_stops_without_session() {
    let prev = vec![false; BUTTON_COUNT];
    let outcome = poll_step(&prev, PollEvent::NoSession);
    assert!(outcome.stop);
    assert!(outcome.pressed.is_empty());
    assert!(outcome.notify.is_none());
    assert_eq!(outcome.states, prev);
}

#[test]
fn poll_step_stops_on_read_error() {
    let prev = vec![false; BUTTON_COUNT];
    let outcome = poll_step(&prev, PollEvent::ReadError);
    assert!(outcome.stop);
    assert!(outcome.pressed.is_empty());
    assert!(outcome.notify.is_none());
}

#[test]
fn poll_step_emits_one_notification_per_changed_iteration() {
    let prev = vec![false; BUTTON_COUNT];
    let outcome = poll_step(&prev, PollEvent::Report(report_with(&[3, 7])));
    assert!(!outcome.stop);
    assert_eq!(outcome.pressed, vec![3, 7]);
    let payload = outcome.notify.expect("states changed, one notification");
    assert_eq!(payload, outcome.states);
    // Same report again: nothing changed, nothing pressed anew.
    let outcome2 = poll_step(&outcome.states, PollEvent::Report(report_with(&[3, 7])));
    assert!(outcome2.pressed.is_empty());
    assert!(outcome2.notify.is_none());
}

#[test]
fn poll_step_with_empty_report_changes_nothing() {
    let mut prev = vec![false; BUTTON_COUNT];
    prev[5] = true;
    let outcome = poll_step(&prev, PollEvent::Report(Vec::new()));
    assert!(!outcome.stop);
    assert!(outcome.pressed.is_empty());
    assert!(outcome.notify.is_none());
    assert_eq!(outcome.states, prev);
}

#[test]
fn release_is_a_change_but_not_a_press() {
    let mut prev = vec![false; BUTTON_COUNT];
    prev[2] = true;
    let outcome = poll_step(&prev, PollEvent::Report(report_with(&[])));
    assert!(outcome.pressed.is_empty(), "release dispatches nothing");
    assert!(outcome.notify.is_some(), "release still notifies the change");
}

fn two_page_config_with_action_at(index: usize, action_type: &str) -> Config {
    let mut buttons: Vec<Option<ButtonConfig>> = (0..15).map(|_| None).collect();
    buttons[index] = Some(ButtonConfig {
        action: Action::new(action_type),
        label: None,
        image: None,
    });
    Config {
        version: 1,
        current_page: 0,
        pages: vec![
            Page { name: "first".to_string(), buttons },
            Page { name: "second".to_string(), buttons: (0..15).map(|_| None).collect() },
        ],
    }
}

#[test]
fn end_to_end_press_dispatches_configured_action() {
    // Simulated device: first a button-count-sized zero report, then a
    // report with the byte for index 3 set.
    let info = DeviceInfo {
        path: "sim0".to_string(),
        product_name: "Simulated".to_string(),
        serial_number: None,
        vendor_id: 0x0fd9,
        product_id: 0x0080,
    };
    let mut session = StreamDeck::new(info);
    let registry = ActionRegistry::new();
    let mut config = two_page_config_with_action_at(3, "navigation.next_page");

    // Iteration 1: zero report, nothing pressed, no change, no dispatch.
    session.apply_report(&report_with(&[]));
    let snapshot0 = vec![false; BUTTON_COUNT];
    let outcome1 = poll_step(&snapshot0, PollEvent::Report(report_with(&[])));
    assert!(outcome1.pressed.is_empty());
    assert!(outcome1.notify.is_none());

    // Iteration 2: the report with byte[offset+3] = 1 arrives.
    let raw = report_with(&[3]);
    session.apply_report(&raw);
    assert!(session.get_button_states()[3]);
    let outcome2 = poll_step(&outcome1.states, PollEvent::Report(raw));
    assert_eq!(outcome2.pressed, vec![3], "index 3 rose false to true");

    let mut notifications = 0;
    if let Some(payload) = &outcome2.notify {
        notifications += 1;
        assert!(payload[3]);
        for (i, &b) in payload.iter().enumerate() {
            if i != 3 {
                assert!(!b, "only index 3 is pressed");
            }
        }
    }
    assert_eq!(notifications, 1, "exactly one change notification");

    // The pressed button dispatches the action configured at index 3 on
    // the current page.
    let mut dispatched = 0;
    for &i in &outcome2.pressed {
        if let Some(action) = action_for_button(&config, i) {
            let action = action.clone();
            assert_eq!(action.action_type, "navigation.next_page");
            let result = registry.execute(&action, &mut config);
            assert_eq!(result, Ok(None));
            dispatched += 1;
        }
    }
    assert_eq!(dispatched, 1);
    assert_eq!(config.current_page, 1, "the dispatched action took effect");
}

#[test]
fn action_for_button_reads_the_current_page() {
    let config = two_page_config_with_action_at(5, "none");
    assert!(action_for_button(&config, 5).is_some());
    assert!(action_for_button(&config, 4).is_none());
    let mut later = config.clone();
    later.current_page = 1;
    assert!(action_for_button(&later, 5).is_none(), "other page has no action");
    let mut broken = config.clone();
    broken.current_page = 9;
    assert!(action_for_button(&broken, 5).is_none(), "missing page yields nothing");
}
