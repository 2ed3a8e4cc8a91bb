//! End-to-end multi-tap recognition: press/release streams translated into
//! `Tap` dispatches on a widget's channel, folded by the derived stream.

use pointer_input::dispatch::{PointerAttr, PointerEventType};
use pointer_input::events::{
    EventCommon, F32Bits, MouseButtons, Point, PointerEvent, PointerId, PointerType,
};

fn sample_event(point_type: PointerType, buttons: MouseButtons, timestamp_ms: u64) -> PointerEvent {
    PointerEvent {
        position: Point { x: F32Bits { bits: 0 }, y: F32Bits { bits: 0 } },
        global_pos: Point { x: F32Bits { bits: 0 }, y: F32Bits { bits: 0 } },
        id: PointerId(1),
        width: F32Bits { bits: 1.0f32.to_bits() },
        height: F32Bits { bits: 1.0f32.to_bits() },
        pressure: F32Bits { bits: 0.5f32.to_bits() },
        tilt_x: F32Bits { bits: 0 },
        tilt_y: F32Bits { bits: 0 },
        twist: F32Bits { bits: 0 },
        point_type,
        is_primary: true,
        buttons,
        common: EventCommon { timestamp_ms, cancel_bubble: false, prevent_default: false },
    }
}

/// Feeds `transitions` alternating press/release transitions of the left
/// mouse button, spaced `spacing_ms` apart, into a widget channel carrying a
/// `times`-tap stream; each release is translated into one `Tap` dispatch.
/// Returns how many synthesized events the derived stream emitted.
fn tap_count_for(times: u8, spacing_ms: u64, transitions: u64) -> usize {
    let mut attr = PointerAttr::new();
    let mut obs = attr.tap_times_observable(times);
    let mut count = 0usize;
    for i in 0..transitions {
        let t = spacing_ms * (i + 1);
        let pressed = i % 2 == 0;
        let kind = if pressed {
            PointerEventType::Down
        } else {
            PointerEventType::Up
        };
        let _ = attr.dispatch_event(kind);
        if !pressed {
            // The translation layer above the core reports one tap per
            // press/release pair, carrying the buttons held at the press.
            let tap = sample_event(
                PointerType::Mouse,
                MouseButtons::from_bits(MouseButtons::PRIMARY),
                t,
            );
            let plan = attr.dispatch_event(PointerEventType::Tap);
            for idx in plan {
                if idx == obs.handle.index && obs.recognizer.observe_tap(t, &tap) {
                    count += 1;
                }
            }
        }
    }
    count
}

#[test]
fn double_tap() {
    assert_eq!(tap_count_for(2, 10, 8), 2);
    assert_eq!(tap_count_for(2, 251, 8), 0);
}

#[test]
fn tripe_tap() {
    assert_eq!(tap_count_for(3, 10, 12), 2);
}

#[test]
fn single_tap_target_fires_on_every_tap() {
    assert_eq!(tap_count_for(1, 10, 8), 4);
}

#[test]
fn identity_change_starts_a_new_run() {
    let mut attr = PointerAttr::new();
    let mut obs = attr.tap_times_observable(2);
    let left = MouseButtons::from_bits(MouseButtons::PRIMARY);
    let right = MouseButtons::from_bits(MouseButtons::SECONDARY);

    // A left tap, then a right tap well inside the window: the right tap
    // must not complete the left run.
    assert!(!obs.recognizer.observe_tap(10, &sample_event(PointerType::Mouse, left, 10)));
    assert!(!obs.recognizer.observe_tap(20, &sample_event(PointerType::Mouse, right, 20)));
    // The right run then completes on its own second tap.
    assert!(obs.recognizer.observe_tap(30, &sample_event(PointerType::Mouse, right, 30)));

    // Same buttons but another device type: again a fresh run.
    assert!(!obs.recognizer.observe_tap(40, &sample_event(PointerType::Touch, right, 40)));
    assert!(!obs.recognizer.observe_tap(50, &sample_event(PointerType::Pen, right, 50)));
}

#[test]
fn window_is_anchored_at_the_first_tap() {
    let mut attr = PointerAttr::new();
    let mut obs = attr.tap_times_observable(3);
    let left = MouseButtons::from_bits(MouseButtons::PRIMARY);

    // Gaps between neighbours stay short, but the third tap arrives 250 ms
    // after the first: the run resets on it instead of firing.
    assert!(!obs.recognizer.observe_tap(0, &sample_event(PointerType::Mouse, left, 0)));
    assert!(!obs.recognizer.observe_tap(130, &sample_event(PointerType::Mouse, left, 130)));
    assert!(!obs.recognizer.observe_tap(250, &sample_event(PointerType::Mouse, left, 250)));

    // The violating tap anchored a new run: two more qualifying taps
    // complete it.
    assert!(!obs.recognizer.observe_tap(260, &sample_event(PointerType::Mouse, left, 260)));
    assert!(obs.recognizer.observe_tap(270, &sample_event(PointerType::Mouse, left, 270)));
}

#[test]
fn saturated_run_restarts_instead_of_retriggering() {
    let mut attr = PointerAttr::new();
    let mut obs = attr.tap_times_observable(2);
    let left = MouseButtons::from_bits(MouseButtons::PRIMARY);

    // Four fast taps: fire at the second and the fourth, never at the third.
    assert!(!obs.recognizer.observe_tap(0, &sample_event(PointerType::Mouse, left, 0)));
    assert!(obs.recognizer.observe_tap(10, &sample_event(PointerType::Mouse, left, 10)));
    assert!(!obs.recognizer.observe_tap(20, &sample_event(PointerType::Mouse, left, 20)));
    assert!(obs.recognizer.observe_tap(30, &sample_event(PointerType::Mouse, left, 30)));
}
