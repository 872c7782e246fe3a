//! Tests of the grab registry and the capture loop logic.

use std::cell::RefCell;

use rdev::capture::{
    convert_event, deliver_event, grabbing_pass, listening_burst, next_state, run_enabled_cycle,
    CaptureState,
};
use rdev::events::{Event, EventType, GrabError, Key};
use rdev::keycodes::all_keys;
use rdev::registry::GrabRegistry;

#[test]
fn registry_membership_and_count() {
    let mut reg = GrabRegistry::new();
    assert!(!reg.is_grabbed(Key::KeyA));
    assert_eq!(reg.grabbed_count(), 0);
    reg.mark_grabbed(Key::KeyA);
    assert!(reg.is_grabbed(Key::KeyA));
    assert!(!reg.is_grabbed(Key::KeyB));
    assert_eq!(reg.grabbed_count(), 1);
    reg.mark_grabbed(Key::KeyB);
    assert_eq!(reg.grabbed_count(), 2);
}

#[test]
fn marking_twice_keeps_one_membership() {
    let mut reg = GrabRegistry::new();
    reg.mark_grabbed(Key::Alt);
    assert_eq!(reg.grabbed_count(), 1);
    reg.mark_grabbed(Key::Alt);
    assert!(reg.is_grabbed(Key::Alt));
    assert_eq!(reg.grabbed_count(), 1);
}

#[test]
fn release_all_ungrabs_every_grabbed_key() {
    let mut reg = GrabRegistry::new();
    reg.mark_grabbed(Key::Alt);
    reg.mark_grabbed(Key::KeyQ);
    let released: RefCell<Vec<u32>> = RefCell::new(Vec::new());
    reg.release_all(&|code: u32| {
        released.borrow_mut().push(code);
    });
    assert_eq!(reg.grabbed_count(), 0);
    assert!(!reg.is_grabbed(Key::Alt));
    let mut log = released.borrow().clone();
    log.sort();
    assert_eq!(log, vec![81, 164]);
}

#[test]
fn convert_event_tags_from_the_flag_and_carries_native_codes() {
    let e = convert_event(Key::KeyA, true, 1000);
    assert_eq!(e.event_type, EventType::KeyPress(Key::KeyA));
    assert_eq!(e.time, 1000);
    assert_eq!(e.name, None);
    assert_eq!(e.code, 65);
    assert_eq!(e.scan_code, 0x1E);
    let e = convert_event(Key::KeyA, false, 1001);
    assert_eq!(e.event_type, EventType::KeyRelease(Key::KeyA));
    // An unknown key still converts, with its code carried and no scan code.
    let e = convert_event(Key::Unknown(300), true, 0);
    assert_eq!(e.event_type, EventType::KeyPress(Key::Unknown(300)));
    assert_eq!(e.code, 300);
    assert_eq!(e.scan_code, 0);
}

#[test]
fn grabbing_pass_grabs_exactly_the_swallowed_key() {
    let callback = |ev: Event| -> Option<Event> {
        match ev.event_type {
            EventType::KeyPress(Key::Alt) => None,
            _ => Some(ev),
        }
    };
    let grabbed_codes: RefCell<Vec<u32>> = RefCell::new(Vec::new());
    let port = |code: u32| {
        grabbed_codes.borrow_mut().push(code);
    };
    let mut reg = GrabRegistry::new();
    let keys = all_keys();
    grabbing_pass(&callback, &port, &mut reg, &keys, 42);
    assert!(reg.is_grabbed(Key::Alt));
    assert_eq!(reg.grabbed_count(), 1);
    for k in all_keys() {
        assert_eq!(reg.is_grabbed(k), k == Key::Alt);
    }
    assert_eq!(*grabbed_codes.borrow(), vec![164]);
}

#[test]
fn second_grabbing_pass_issues_no_redundant_native_call() {
    let callback = |ev: Event| -> Option<Event> {
        match ev.event_type {
            EventType::KeyPress(Key::Alt) => None,
            _ => Some(ev),
        }
    };
    let grabbed_codes: RefCell<Vec<u32>> = RefCell::new(Vec::new());
    let port = |code: u32| {
        grabbed_codes.borrow_mut().push(code);
    };
    let mut reg = GrabRegistry::new();
    let keys = all_keys();
    grabbing_pass(&callback, &port, &mut reg, &keys, 1);
    grabbing_pass(&callback, &port, &mut reg, &keys, 2);
    assert_eq!(reg.grabbed_count(), 1);
    assert_eq!(*grabbed_codes.borrow(), vec![164]);
}

#[test]
fn deliver_event_offers_the_translated_event() {
    let seen: RefCell<Vec<Event>> = RefCell::new(Vec::new());
    let callback = |ev: Event| -> Option<Event> {
        seen.borrow_mut().push(ev.clone());
        Some(ev)
    };
    let r = deliver_event(&callback, 66, true, 7);
    assert!(r.is_some());
    let log = seen.borrow();
    assert_eq!(log.len(), 1);
    assert_eq!(log[0].event_type, EventType::KeyPress(Key::KeyB));
    assert_eq!(log[0].time, 7);
    assert_eq!(log[0].code, 66);
}

#[test]
fn listening_burst_delivers_in_order_with_native_tagging() {
    let seen: RefCell<Vec<EventType>> = RefCell::new(Vec::new());
    let callback = |ev: Event| -> Option<Event> {
        seen.borrow_mut().push(ev.event_type);
        Some(ev)
    };
    // Press A, press B, release A, release B: the release of A arrives
    // while B is still down, and must be tagged from the native flag.
    let natives = vec![(65u32, true, 10u64), (66, true, 11), (65, false, 12), (66, false, 13)];
    let delivered = listening_burst(&callback, &natives);
    let expected = vec![
        EventType::KeyPress(Key::KeyA),
        EventType::KeyPress(Key::KeyB),
        EventType::KeyRelease(Key::KeyA),
        EventType::KeyRelease(Key::KeyB),
    ];
    assert_eq!(delivered.len(), 4);
    for (i, e) in delivered.iter().enumerate() {
        assert_eq!(e.event_type, expected[i]);
        assert_eq!(e.time, 10 + i as u64);
    }
    assert_eq!(*seen.borrow(), expected);
}

#[test]
fn swallowing_callback_does_not_stop_listening_delivery() {
    // Filtering already happened while grabbing: the burst still offers
    // every event and still reports it, whatever the callback answers.
    let callback = |_ev: Event| -> Option<Event> { None };
    let natives = vec![(164u32, true, 1u64), (164, false, 2)];
    let delivered = listening_burst(&callback, &natives);
    assert_eq!(delivered.len(), 2);
    assert_eq!(delivered[0].event_type, EventType::KeyPress(Key::Alt));
    assert_eq!(delivered[1].event_type, EventType::KeyRelease(Key::Alt));
}

#[test]
fn session_states_walk_the_designed_cycle() {
    // Enabling leaves idle; a handle starts a grabbing pass; the pass
    // leads to listening; disabling returns to idle at the next check.
    assert_eq!(next_state(CaptureState::Idle, true, false), Ok(CaptureState::Starting));
    assert_eq!(next_state(CaptureState::Idle, false, false), Ok(CaptureState::Idle));
    assert_eq!(next_state(CaptureState::Starting, true, true), Ok(CaptureState::Grabbing));
    assert_eq!(next_state(CaptureState::Grabbing, true, true), Ok(CaptureState::Listening));
    assert_eq!(next_state(CaptureState::Listening, true, true), Ok(CaptureState::Listening));
    assert_eq!(next_state(CaptureState::Listening, false, true), Ok(CaptureState::Idle));
    assert_eq!(next_state(CaptureState::Grabbing, false, true), Ok(CaptureState::Idle));
}

#[test]
fn failing_to_open_the_handle_is_a_grab_error() {
    assert_eq!(next_state(CaptureState::Starting, true, false), Err(GrabError));
}

#[test]
fn full_cycle_grabs_delivers_and_releases() {
    let seen: RefCell<Vec<EventType>> = RefCell::new(Vec::new());
    let callback = |ev: Event| -> Option<Event> {
        seen.borrow_mut().push(ev.event_type);
        match ev.event_type {
            EventType::KeyPress(Key::Alt) => None,
            _ => Some(ev),
        }
    };
    let grab_log: RefCell<Vec<u32>> = RefCell::new(Vec::new());
    let ungrab_log: RefCell<Vec<u32>> = RefCell::new(Vec::new());
    let grab_port = |code: u32| {
        grab_log.borrow_mut().push(code);
    };
    let ungrab_port = |code: u32| {
        ungrab_log.borrow_mut().push(code);
    };
    let mut reg = GrabRegistry::new();
    let keys = all_keys();
    let natives = vec![(65u32, true, 1u64), (66, true, 2), (65, false, 3), (66, false, 4)];
    let delivered = run_enabled_cycle(
        &callback,
        &grab_port,
        &ungrab_port,
        &mut reg,
        &keys,
        &natives,
        0,
    );
    // The grabbing pass asked the system for exactly the swallowed key,
    // and the shutdown released exactly what was grabbed.
    assert_eq!(*grab_log.borrow(), vec![164]);
    assert_eq!(*ungrab_log.borrow(), vec![164]);
    assert_eq!(reg.grabbed_count(), 0);
    // The listening phase delivered the whole stream, in order, tagged
    // from each native event's own flag.
    let expected = vec![
        EventType::KeyPress(Key::KeyA),
        EventType::KeyPress(Key::KeyB),
        EventType::KeyRelease(Key::KeyA),
        EventType::KeyRelease(Key::KeyB),
    ];
    let types: Vec<EventType> = delivered.iter().map(|e| e.event_type).collect();
    assert_eq!(types, expected);
}

#[test]
fn cancellation_is_bounded_by_one_pending_event() {
    // A driver that reads the flag before every fetch: once the flag goes
    // false, at most the one already-dequeued event is still delivered.
    let seen: RefCell<Vec<EventType>> = RefCell::new(Vec::new());
    let callback = |ev: Event| -> Option<Event> {
        seen.borrow_mut().push(ev.event_type);
        Some(ev)
    };
    let pending = vec![(65u32, true, 1u64), (66, true, 2), (67, true, 3)];
    let mut state = CaptureState::Listening;
    let mut fetched = 0usize;
    let mut enabled = true;
    while state == CaptureState::Listening {
        state = next_state(state, enabled, true).unwrap();
        if state != CaptureState::Listening {
            break;
        }
        let (code, is_press, time) = pending[fetched];
        fetched += 1;
        let _ = deliver_event(&callback, code, is_press, time);
        // The flag flips false while the first event is being handled.
        enabled = false;
    }
    assert_eq!(state, CaptureState::Idle);
    assert_eq!(fetched, 1);
    assert_eq!(*seen.borrow(), vec![EventType::KeyPress(Key::KeyA)]);
}
