use input_relay::{
    action_for, apply_action, decode_event, dispatch, Action, Button, ControlEvent, PointerState,
};

fn idle() -> PointerState {
    PointerState { x: 0, y: 0, left_down: false, right_down: false }
}

#[test]
fn mousemove_moves_cursor_to_coordinates() {
    let a = dispatch(r#"{"type":"mousemove","x":100,"y":200}"#);
    assert_eq!(a, Action::MoveTo { x: 100, y: 200 });
    let s = apply_action(&a, &idle());
    assert_eq!(s.x, 100);
    assert_eq!(s.y, 200);
    assert!(!s.left_down);
    assert!(!s.right_down);
}

#[test]
fn mousemove_accepts_negative_coordinates() {
    let a = dispatch(r#"{"type":"mousemove","x":-5,"y":-7}"#);
    assert_eq!(a, Action::MoveTo { x: -5, y: -7 });
}

#[test]
fn mousemove_accepts_extreme_i32_coordinates() {
    let a = dispatch(r#"{"type":"mousemove","x":2147483647,"y":-2147483648}"#);
    assert_eq!(a, Action::MoveTo { x: 2147483647, y: -2147483648 });
}

#[test]
fn mousedown_right_presses_right_button() {
    let a = dispatch(r#"{"type":"mousedown","button":"right"}"#);
    assert_eq!(a, Action::Press { button: Button::Right });
    let s = apply_action(&a, &idle());
    assert!(s.right_down);
    assert!(!s.left_down);
    assert_eq!(s.x, 0);
    assert_eq!(s.y, 0);
}

#[test]
fn mouseup_without_button_releases_left_button() {
    let a = dispatch(r#"{"type":"mouseup"}"#);
    assert_eq!(a, Action::Release { button: Button::Left });
    let held = PointerState { x: 3, y: 4, left_down: true, right_down: true };
    let s = apply_action(&a, &held);
    assert!(!s.left_down);
    assert!(s.right_down);
    assert_eq!(s.x, 3);
    assert_eq!(s.y, 4);
}

#[test]
fn mousemove_missing_y_is_noop() {
    let a = dispatch(r#"{"type":"mousemove","x":50}"#);
    assert_eq!(a, Action::NoOp);
    assert_eq!(apply_action(&a, &idle()), idle());
}

#[test]
fn mousemove_missing_x_is_noop() {
    let a = dispatch(r#"{"type":"mousemove","y":50}"#);
    assert_eq!(a, Action::NoOp);
}

#[test]
fn mousemove_null_coordinate_is_noop() {
    let a = dispatch(r#"{"type":"mousemove","x":null,"y":2}"#);
    assert_eq!(a, Action::NoOp);
}

#[test]
fn invalid_json_is_noop() {
    let a = dispatch("not valid json");
    assert_eq!(a, Action::NoOp);
}

#[test]
fn keypress_is_noop() {
    let a = dispatch(r#"{"type":"keypress","key":"a"}"#);
    assert_eq!(a, Action::NoOp);
}

#[test]
fn dispatching_same_mousemove_twice_lands_in_same_state() {
    let payload = r#"{"type":"mousemove","x":42,"y":17}"#;
    let once = apply_action(&dispatch(payload), &idle());
    let twice = apply_action(&dispatch(payload), &once);
    assert_eq!(once, twice);
}

#[test]
fn button_resolution_defaults_to_left() {
    assert_eq!(
        dispatch(r#"{"type":"mousedown","button":"left"}"#),
        Action::Press { button: Button::Left }
    );
    assert_eq!(
        dispatch(r#"{"type":"mousedown","button":"middle"}"#),
        Action::Press { button: Button::Left }
    );
    assert_eq!(
        dispatch(r#"{"type":"mousedown"}"#),
        Action::Press { button: Button::Left }
    );
    // The match on "right" is exact and case-sensitive.
    assert_eq!(
        dispatch(r#"{"type":"mousedown","button":"Right"}"#),
        Action::Press { button: Button::Left }
    );
    assert_eq!(
        dispatch(r#"{"type":"mouseup","button":"right"}"#),
        Action::Release { button: Button::Right }
    );
}

#[test]
fn unknown_event_type_is_noop() {
    assert_eq!(dispatch(r#"{"type":"scroll","x":1,"y":2}"#), Action::NoOp);
    assert_eq!(dispatch(r#"{"type":""}"#), Action::NoOp);
}

#[test]
fn missing_type_is_noop() {
    assert_eq!(dispatch(r#"{"x":1,"y":2}"#), Action::NoOp);
    assert_eq!(dispatch(r#"{}"#), Action::NoOp);
}

#[test]
fn non_object_payloads_are_noop() {
    assert_eq!(dispatch("[1,2]"), Action::NoOp);
    assert_eq!(dispatch("5"), Action::NoOp);
    assert_eq!(dispatch("\"mousemove\""), Action::NoOp);
    assert_eq!(dispatch(""), Action::NoOp);
}

#[test]
fn wrongly_typed_fields_reject_whole_event() {
    // A present field of the wrong shape is a decode error, not a default.
    assert_eq!(dispatch(r#"{"type":5}"#), Action::NoOp);
    assert_eq!(dispatch(r#"{"type":"mousedown","button":3}"#), Action::NoOp);
    assert_eq!(dispatch(r#"{"type":"mousedown","x":"a"}"#), Action::NoOp);
    assert_eq!(dispatch(r#"{"type":"mousemove","x":1.5,"y":2}"#), Action::NoOp);
}

#[test]
fn coordinates_beyond_i32_reject_whole_event() {
    assert_eq!(dispatch(r#"{"type":"mousemove","x":2147483648,"y":0}"#), Action::NoOp);
    assert_eq!(dispatch(r#"{"type":"mousemove","x":0,"y":-2147483649}"#), Action::NoOp);
}

#[test]
fn unknown_fields_are_ignored() {
    let a = dispatch(r#"{"type":"mousedown","extra":true,"more":[1]}"#);
    assert_eq!(a, Action::Press { button: Button::Left });
}

#[test]
fn decode_fills_every_field() {
    let e = decode_event(r#"{"type":"mousemove","x":9,"y":-3,"button":"right","key":"q"}"#)
        .expect("well-formed event must decode");
    assert_eq!(e.event_type, "mousemove");
    assert_eq!(e.x, Some(9));
    assert_eq!(e.y, Some(-3));
    assert_eq!(e.button, Some("right".to_string()));
    assert_eq!(e.key, Some("q".to_string()));
}

#[test]
fn decode_null_optional_fields_as_absent() {
    let e = decode_event(r#"{"type":"mouseup","button":null,"key":null,"x":null,"y":null}"#)
        .expect("null optional fields are accepted");
    assert_eq!(e.x, None);
    assert_eq!(e.y, None);
    assert_eq!(e.button, None);
    assert_eq!(e.key, None);
}

#[test]
fn decode_rejects_malformed_payloads() {
    assert!(decode_event("not valid json").is_none());
    assert!(decode_event(r#"{"x":1}"#).is_none());
    assert!(decode_event(r#"{"type":null}"#).is_none());
    assert!(decode_event(r#"{"type":"mousemove","key":7}"#).is_none());
}

#[test]
fn action_for_reads_the_event_fields() {
    let e = ControlEvent {
        event_type: "mousemove".to_string(),
        x: Some(8),
        y: None,
        button: None,
        key: None,
    };
    assert_eq!(action_for(&e), Action::NoOp);
    let e = ControlEvent {
        event_type: "mouseup".to_string(),
        x: None,
        y: None,
        button: Some("right".to_string()),
        key: None,
    };
    assert_eq!(action_for(&e), Action::Release { button: Button::Right });
}
