//! The broadcast channel: filtering, registration order, cancellation, and
//! the single mutable view a dispatch cycle lends out.

use pointer_input::dispatch::{PointerAttr, PointerEventType};
use pointer_input::events::{
    EventCommon, F32Bits, MouseButtons, Point, PointerEvent, PointerId, PointerType,
};

fn sample_event(timestamp_ms: u64) -> PointerEvent {
    PointerEvent {
        position: Point { x: F32Bits { bits: 0 }, y: F32Bits { bits: 0 } },
        global_pos: Point { x: F32Bits { bits: 0 }, y: F32Bits { bits: 0 } },
        id: PointerId(7),
        width: F32Bits { bits: 0 },
        height: F32Bits { bits: 0 },
        pressure: F32Bits { bits: 0 },
        tilt_x: F32Bits { bits: 0 },
        tilt_y: F32Bits { bits: 0 },
        twist: F32Bits { bits: 0 },
        point_type: PointerType::Mouse,
        is_primary: true,
        buttons: MouseButtons::empty(),
        common: EventCommon { timestamp_ms, cancel_bubble: false, prevent_default: false },
    }
}

#[test]
fn plan_filters_by_kind_in_registration_order() {
    let mut attr = PointerAttr::new();
    let on_down = attr.listen_on(PointerEventType::Down);
    let on_up = attr.listen_on(PointerEventType::Up);
    let raw = attr.pointer_observable();

    assert_eq!(
        attr.dispatch_event(PointerEventType::Down),
        vec![on_down.index, raw.index]
    );
    assert_eq!(
        attr.dispatch_event(PointerEventType::Up),
        vec![on_up.index, raw.index]
    );
    assert_eq!(attr.dispatch_event(PointerEventType::Move), vec![raw.index]);
}

#[test]
fn unsubscribe_is_immediate_and_idempotent() {
    let mut attr = PointerAttr::new();
    let first = attr.listen_on(PointerEventType::Down);
    let second = attr.listen_on(PointerEventType::Down);

    assert!(attr.is_active(&first));
    attr.unsubscribe(&first);
    assert!(!attr.is_active(&first));
    assert_eq!(attr.dispatch_event(PointerEventType::Down), vec![second.index]);

    // Cancelling again changes nothing.
    attr.unsubscribe(&first);
    assert!(!attr.is_active(&first));
    assert!(attr.is_active(&second));
    assert_eq!(attr.dispatch_event(PointerEventType::Down), vec![second.index]);
}

#[test]
fn unsubscribe_during_a_cycle_stops_delivery_at_once() {
    let mut attr = PointerAttr::new();
    let first = attr.listen_on(PointerEventType::Down);
    let second = attr.listen_on(PointerEventType::Down);

    let mut cycle = attr.begin_dispatch(PointerEventType::Down);
    assert_eq!(attr.next_listener(&mut cycle), Some(first.index));

    // The first listener cancels the second while the cycle is in flight:
    // the second must not be yielded any more, in this cycle or later ones.
    attr.unsubscribe(&second);
    assert_eq!(attr.next_listener(&mut cycle), None);
    assert_eq!(attr.dispatch_event(PointerEventType::Down), vec![first.index]);
}

#[test]
fn listeners_registered_during_a_cycle_are_reached() {
    let mut attr = PointerAttr::new();
    let first = attr.listen_on(PointerEventType::Tap);

    let mut cycle = attr.begin_dispatch(PointerEventType::Tap);
    assert_eq!(attr.next_listener(&mut cycle), Some(first.index));

    // A listener subscribing mid-cycle sits after the cursor and is served
    // in the same cycle, in registration order.
    let late = attr.listen_on(PointerEventType::Tap);
    assert_eq!(attr.next_listener(&mut cycle), Some(late.index));
    assert_eq!(attr.next_listener(&mut cycle), None);
}

#[test]
fn one_event_instance_is_lent_to_each_listener_in_turn() {
    let mut attr = PointerAttr::new();
    let _a = attr.listen_on(PointerEventType::Down);
    let _b = attr.listen_on(PointerEventType::Down);

    let mut event = sample_event(42);
    let mut seen_by_later_listener = Vec::new();
    for idx in attr.dispatch_event(PointerEventType::Down) {
        // One exclusive view at a time: a mutation made by the first
        // listener is visible to the second.
        let view = event.common_mut();
        seen_by_later_listener.push((idx, view.cancel_bubble));
        view.cancel_bubble = true;
    }
    assert_eq!(seen_by_later_listener, vec![(0, false), (1, true)]);
    assert!(event.common().cancel_bubble);
    assert_eq!(event.common().timestamp_ms, 42);
}
