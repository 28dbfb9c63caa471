//! Tests of the per-event session pipeline, run against real evdev events.

use evdev::{EventType, InputEvent, Key};
use keyremap::rules::fixed_config;
use keyremap::session::{as_input_events, process_raw_event, EmissionPlan};

#[test]
fn fixed_config_matches_kernel_key_codes() {
    let cfg = fixed_config();
    assert_eq!(cfg.primary_key, Key::KEY_A.code());
    assert_eq!(cfg.primary_button, Key::BTN_WEST.code());
    assert_eq!(cfg.chord_first, Key::KEY_LEFTSHIFT.code());
    assert_eq!(cfg.chord_second, Key::KEY_LEFTALT.code());
    assert_eq!(cfg.chord_third, Key::KEY_RIGHTCTRL.code());
    assert_eq!(cfg.secondary_key, Key::KEY_B.code());
    assert_eq!(cfg.output_key, Key::KEY_SPACE.code());
}

#[test]
fn as_input_events_mirrors_the_pairs() {
    let pairs = vec![(42u16, 1i32), (57u16, 0i32), (97u16, 2i32)];
    let out = as_input_events(&pairs);
    assert_eq!(out.len(), pairs.len());
    for (event, (code, value)) in out.iter().zip(pairs.iter()) {
        assert_eq!(event.event_type(), EventType::KEY);
        assert_eq!(event.code(), *code);
        assert_eq!(event.value(), *value);
    }
}

#[test]
fn primary_press_plans_one_chord_batch() {
    let cfg = fixed_config();
    let raw = InputEvent::new(EventType::KEY, Key::KEY_A.code(), 1);
    match process_raw_event(&cfg, raw) {
        EmissionPlan::Batch(out) => {
            assert_eq!(out.len(), 3);
            let codes: Vec<u16> = out.iter().map(|e| e.code()).collect();
            assert_eq!(
                codes,
                vec![
                    Key::KEY_LEFTSHIFT.code(),
                    Key::KEY_LEFTALT.code(),
                    Key::KEY_RIGHTCTRL.code(),
                ]
            );
            for e in &out {
                assert_eq!(e.event_type(), EventType::KEY);
                assert_eq!(e.value(), 1);
            }
        }
        _ => panic!("expected a key batch"),
    }
}

#[test]
fn primary_repeat_report_is_clamped() {
    let cfg = fixed_config();
    let raw = InputEvent::new(EventType::KEY, Key::BTN_WEST.code(), 2);
    match process_raw_event(&cfg, raw) {
        EmissionPlan::Batch(out) => {
            assert_eq!(out.len(), 3);
            for e in &out {
                assert_eq!(e.value(), 1);
            }
        }
        _ => panic!("expected a key batch"),
    }
}

#[test]
fn secondary_press_then_release_plans_two_single_batches() {
    let cfg = fixed_config();
    for value in [1, 0] {
        let raw = InputEvent::new(EventType::KEY, Key::KEY_B.code(), value);
        match process_raw_event(&cfg, raw) {
            EmissionPlan::Batch(out) => {
                assert_eq!(out.len(), 1);
                assert_eq!(out[0].event_type(), EventType::KEY);
                assert_eq!(out[0].code(), Key::KEY_SPACE.code());
                assert_eq!(out[0].value(), value);
            }
            _ => panic!("expected a key batch"),
        }
    }
}

#[test]
fn sync_event_is_forwarded_verbatim() {
    let cfg = fixed_config();
    // A timestamped event: forwarding must hand back this very event, not a
    // reconstructed one, so the timestamp survives.
    let raw = InputEvent::new_now(EventType::SYNCHRONIZATION, 0, 0);
    match process_raw_event(&cfg, raw) {
        EmissionPlan::Forward(forwarded) => {
            assert_eq!(forwarded.event_type(), raw.event_type());
            assert_eq!(forwarded.code(), raw.code());
            assert_eq!(forwarded.value(), raw.value());
            assert_eq!(forwarded.timestamp(), raw.timestamp());
        }
        _ => panic!("expected the raw event to be forwarded"),
    }
}

#[test]
fn unmapped_raw_events_are_skipped() {
    let cfg = fixed_config();
    // An absolute-axis report and an unmapped key code plan nothing.
    let axis = InputEvent::new(EventType::ABSOLUTE, 0, 128);
    assert!(matches!(process_raw_event(&cfg, axis), EmissionPlan::Skip));
    let other_key = InputEvent::new(EventType::KEY, Key::KEY_C.code(), 1);
    assert!(matches!(process_raw_event(&cfg, other_key), EmissionPlan::Skip));
}
