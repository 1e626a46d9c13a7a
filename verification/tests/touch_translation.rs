use vexide_slint::touch::{PointerEvent, TouchSample, TouchState, TouchTranslator};

fn sample(x: i16, y: i16, state: TouchState) -> TouchSample {
    TouchSample { x, y, state }
}

#[test]
fn released_always_yields_release_and_clears_flag() {
    // From a fresh translator.
    let mut t = TouchTranslator::new();
    let e = t.translate(&sample(7, 9, TouchState::Released));
    assert_eq!(e, PointerEvent::Released { x: 7, y: 9 });
    assert!(!t.pressed);

    // From a latched contact.
    let mut t = TouchTranslator::new();
    t.translate(&sample(1, 1, TouchState::Pressed));
    assert!(t.pressed);
    let e = t.translate(&sample(2, 3, TouchState::Released));
    assert_eq!(e, PointerEvent::Released { x: 2, y: 3 });
    assert!(!t.pressed);

    // From a held contact.
    let mut t = TouchTranslator::new();
    t.translate(&sample(1, 1, TouchState::Held));
    assert!(t.pressed);
    let e = t.translate(&sample(4, 5, TouchState::Released));
    assert_eq!(e, PointerEvent::Released { x: 4, y: 5 });
    assert!(!t.pressed);
}

#[test]
fn first_pressed_is_press_edge() {
    let mut t = TouchTranslator::new();
    let e = t.translate(&sample(10, 20, TouchState::Pressed));
    assert_eq!(e, PointerEvent::Pressed { x: 10, y: 20 });
    assert!(t.pressed);
}

#[test]
fn two_consecutive_pressed_debounce_to_press_then_move() {
    let mut t = TouchTranslator::new();
    let e1 = t.translate(&sample(10, 10, TouchState::Pressed));
    let e2 = t.translate(&sample(11, 10, TouchState::Pressed));
    assert_eq!(e1, PointerEvent::Pressed { x: 10, y: 10 });
    assert_eq!(e2, PointerEvent::Moved { x: 11, y: 10 });
}

#[test]
fn no_two_press_edges_in_a_row() {
    let mut t = TouchTranslator::new();
    let states = [
        TouchState::Pressed,
        TouchState::Pressed,
        TouchState::Released,
        TouchState::Pressed,
        TouchState::Held,
        TouchState::Pressed,
    ];
    let mut previous_was_press = false;
    for (i, s) in states.iter().enumerate() {
        let e = t.translate(&sample(i as i16, 0, *s));
        let is_press = matches!(e, PointerEvent::Pressed { .. });
        assert!(!(previous_was_press && is_press));
        previous_was_press = is_press;
    }
}

#[test]
fn held_is_always_motion() {
    let mut t = TouchTranslator::new();
    let e = t.translate(&sample(3, 4, TouchState::Held));
    assert_eq!(e, PointerEvent::Moved { x: 3, y: 4 });
    assert!(t.pressed);
    let e = t.translate(&sample(5, 6, TouchState::Held));
    assert_eq!(e, PointerEvent::Moved { x: 5, y: 6 });
    assert!(t.pressed);
}

#[test]
fn scenario_stream_translates_with_one_to_one_scale() {
    let mut t = TouchTranslator::new();
    let samples = vec![
        sample(0, 0, TouchState::Released),
        sample(10, 10, TouchState::Pressed),
        sample(12, 10, TouchState::Held),
        sample(12, 10, TouchState::Held),
        sample(12, 10, TouchState::Released),
    ];
    let events = t.translate_stream(&samples);
    assert_eq!(
        events,
        vec![
            PointerEvent::Released { x: 0, y: 0 },
            PointerEvent::Pressed { x: 10, y: 10 },
            PointerEvent::Moved { x: 12, y: 10 },
            PointerEvent::Moved { x: 12, y: 10 },
            PointerEvent::Released { x: 12, y: 10 },
        ]
    );
    assert!(!t.pressed);
}

#[test]
fn empty_stream_yields_no_events() {
    let mut t = TouchTranslator::new();
    let events = t.translate_stream(&Vec::new());
    assert!(events.is_empty());
    assert!(!t.pressed);
}

#[test]
fn flag_is_set_exactly_when_last_event_was_press_or_move() {
    let mut t = TouchTranslator::new();
    let streams = [
        TouchState::Pressed,
        TouchState::Held,
        TouchState::Released,
        TouchState::Held,
        TouchState::Pressed,
        TouchState::Released,
    ];
    for (i, s) in streams.iter().enumerate() {
        let e = t.translate(&sample(i as i16, 1, *s));
        let down = matches!(
            e,
            PointerEvent::Pressed { .. } | PointerEvent::Moved { .. }
        );
        assert_eq!(t.pressed, down);
    }
}
