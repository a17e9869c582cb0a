//! The dispatch table: from a decoded event to the one OS action it calls for,
//! and a model of the pointer state those actions mutate.

use vstd::prelude::*;
use crate::event::{ControlEvent, EventModel, decode_event, spec_decode};

verus! {

/// Which mouse button an action works on.
#[derive(Clone, Copy, Debug, PartialEq, Eq, Structural)]
pub enum Button {
    Left,
    Right,
}

/// The single OS input action one dispatch resolves to. `NoOp` is the explicit
/// no-action branch: unknown event types, missing coordinates, reserved key
/// events and undecodable payloads all land there.
#[derive(Clone, Copy, Debug, PartialEq, Eq, Structural)]
pub enum Action {
    MoveTo { x: i32, y: i32 },
    Press { button: Button },
    Release { button: Button },
    NoOp,
}

/// Model of the OS pointer state the actions mutate: absolute cursor position
/// and the held state of the two buttons.
#[derive(Clone, Copy, Debug, PartialEq, Eq, Structural)]
pub struct PointerState {
    pub x: i32,
    pub y: i32,
    pub left_down: bool,
    pub right_down: bool,
}

/// Button resolution policy: exactly `"right"` selects the right button; every
/// other value, absence included, defaults to the left button.
pub open spec fn spec_button(button: Option<Seq<char>>) -> Button {
    if button == Some("right"@) {
        Button::Right
    } else {
        Button::Left
    }
}

/// The dispatch table over event models: a pointer move needs both
/// coordinates, presses and releases always resolve to a button, and every
/// other event type (the reserved `keypress` included) calls for no action.
pub open spec fn spec_action(e: EventModel) -> Action {
    if e.event_type == "mousemove"@ {
        if e.x is Some && e.y is Some {
            Action::MoveTo { x: e.x->0, y: e.y->0 }
        } else {
            Action::NoOp
        }
    } else if e.event_type == "mousedown"@ {
        Action::Press { button: spec_button(e.button) }
    } else if e.event_type == "mouseup"@ {
        Action::Release { button: spec_button(e.button) }
    } else {
        Action::NoOp
    }
}

/// How one action transforms the pointer state.
pub open spec fn spec_state_after(a: Action, s: PointerState) -> PointerState {
    match a {
        Action::MoveTo { x, y } => PointerState {
            x,
            y,
            left_down: s.left_down,
            right_down: s.right_down,
        },
        Action::Press { button } => match button {
            Button::Left => PointerState {
                x: s.x,
                y: s.y,
                left_down: true,
                right_down: s.right_down,
            },
            Button::Right => PointerState {
                x: s.x,
                y: s.y,
                left_down: s.left_down,
                right_down: true,
            },
        },
        Action::Release { button } => match button {
            Button::Left => PointerState {
                x: s.x,
                y: s.y,
                left_down: false,
                right_down: s.right_down,
            },
            Button::Right => PointerState {
                x: s.x,
                y: s.y,
                left_down: s.left_down,
                right_down: false,
            },
        },
        Action::NoOp => s,
    }
}

/// Resolves the optional button field to the button acted on.
pub fn resolve_button(button: &Option<String>) -> (b: Button)
    ensures
        b == spec_button(button.deep_view()),
{
    match button {
        Some(s) => {
            let right = "right".to_string();
            if *s == right {
                Button::Right
            } else {
                Button::Left
            }
        },
        None => Button::Left,
    }
}

/// Maps one decoded event to the action it calls for, exactly as the dispatch
/// table states it.
pub fn action_for(event: &ControlEvent) -> (a: Action)
    ensures
        a == spec_action(event@),
{
    let mousemove = "mousemove".to_string();
    let mousedown = "mousedown".to_string();
    let mouseup = "mouseup".to_string();
    if event.event_type == mousemove {
        match (event.x, event.y) {
            (Some(x), Some(y)) => Action::MoveTo { x, y },
            _ => Action::NoOp,
        }
    } else if event.event_type == mousedown {
        Action::Press { button: resolve_button(&event.button) }
    } else if event.event_type == mouseup {
        Action::Release { button: resolve_button(&event.button) }
    } else {
        Action::NoOp
    }
}

/// Applies one action to a pointer state, exactly as the model states it.
pub fn apply_action(a: &Action, s: &PointerState) -> (r: PointerState)
    ensures
        r == spec_state_after(*a, *s),
{
    match a {
        Action::MoveTo { x, y } => PointerState {
            x: *x,
            y: *y,
            left_down: s.left_down,
            right_down: s.right_down,
        },
        Action::Press { button: Button::Left } => PointerState {
            x: s.x,
            y: s.y,
            left_down: true,
            right_down: s.right_down,
        },
        Action::Press { button: Button::Right } => PointerState {
            x: s.x,
            y: s.y,
            left_down: s.left_down,
            right_down: true,
        },
        Action::Release { button: Button::Left } => PointerState {
            x: s.x,
            y: s.y,
            left_down: false,
            right_down: s.right_down,
        },
        Action::Release { button: Button::Right } => PointerState {
            x: s.x,
            y: s.y,
            left_down: s.left_down,
            right_down: false,
        },
        Action::NoOp => *s,
    }
}

/// The whole dispatcher over payload texts: the action of the decoded event,
/// or no action when the payload does not decode.
pub open spec fn spec_dispatch(s: Seq<char>) -> Action {
    match spec_decode(s) {
        Some(e) => spec_action(e),
        None => Action::NoOp,
    }
}

/// Decodes one payload and resolves the OS action it calls for. This is the
/// dispatcher's whole decision; performing the action on the OS input
/// facility is the host's side of the boundary, so a test can assert on the
/// outcome without touching real input state.
pub fn dispatch(payload: &str) -> (a: Action)
    ensures
        a == spec_dispatch(payload@),
{
    match decode_event(payload) {
        Some(e) => action_for(&e),
        None => Action::NoOp,
    }
}

/// A well-formed pointer-move event puts the pointer exactly at its
/// coordinates and leaves both buttons as they were.
pub proof fn lemma_mousemove_sets_pointer(e: EventModel, s: PointerState)
    requires
        e.event_type == "mousemove"@,
        e.x is Some,
        e.y is Some,
    ensures
        spec_state_after(spec_action(e), s).x == e.x->0,
        spec_state_after(spec_action(e), s).y == e.y->0,
        spec_state_after(spec_action(e), s).left_down == s.left_down,
        spec_state_after(spec_action(e), s).right_down == s.right_down,
{
}

/// A pointer-move event missing either coordinate calls for no action and
/// leaves the pointer state untouched.
pub proof fn lemma_mousemove_missing_coordinate_is_noop(e: EventModel, s: PointerState)
    requires
        e.event_type == "mousemove"@,
        e.x is None || e.y is None,
    ensures
        spec_action(e) == Action::NoOp,
        spec_state_after(spec_action(e), s) == s,
{
}

/// Button resolution for presses and releases: exactly `"right"` acts on the
/// right button, every other value (absence included) acts on the left one.
pub proof fn lemma_button_resolution(e: EventModel)
    requires
        e.event_type == "mousedown"@ || e.event_type == "mouseup"@,
    ensures
        e.button == Some("right"@) ==> spec_acted_button(spec_action(e)) == Some(Button::Right),
        e.button != Some("right"@) ==> spec_acted_button(spec_action(e)) == Some(Button::Left),
{
    reveal_strlit("mousemove");
    reveal_strlit("mousedown");
    reveal_strlit("mouseup");
    assert(("mousemove"@).len() == 9);
    assert(("mousedown"@).len() == 9);
    assert(("mouseup"@).len() == 7);
    assert(("mousemove"@).index(5) == 'm');
    assert(("mousedown"@).index(5) == 'd');
}

/// The button an action works on, if it is a press or a release.
pub open spec fn spec_acted_button(a: Action) -> Option<Button> {
    match a {
        Action::Press { button } => Some(button),
        Action::Release { button } => Some(button),
        _ => None,
    }
}

/// A reserved `keypress` event calls for no action and leaves the pointer
/// state untouched.
pub proof fn lemma_keypress_is_noop(e: EventModel, s: PointerState)
    requires
        e.event_type == "keypress"@,
    ensures
        spec_action(e) == Action::NoOp,
        spec_state_after(spec_action(e), s) == s,
{
    reveal_strlit("keypress");
    reveal_strlit("mousemove");
    reveal_strlit("mousedown");
    reveal_strlit("mouseup");
    assert(("keypress"@).len() == 8);
    assert(("mousemove"@).len() == 9);
    assert(("mousedown"@).len() == 9);
    assert(("mouseup"@).len() == 7);
}

/// Any event type outside the fixed vocabulary calls for no action.
pub proof fn lemma_unrecognized_is_noop(e: EventModel, s: PointerState)
    requires
        e.event_type != "mousemove"@,
        e.event_type != "mousedown"@,
        e.event_type != "mouseup"@,
    ensures
        spec_action(e) == Action::NoOp,
        spec_state_after(spec_action(e), s) == s,
{
}

/// A payload that does not decode resolves to no action: malformed input is
/// swallowed whole, never half-acted on.
pub proof fn lemma_malformed_is_noop(s: Seq<char>)
    requires
        spec_decode(s) is None,
    ensures
        spec_dispatch(s) == Action::NoOp,
{
}

/// Every action is idempotent on the pointer state: applying it twice leaves
/// the same state as applying it once. In particular dispatching the same
/// pointer-move twice ends at the same cursor position as dispatching it
/// once.
pub proof fn lemma_action_idempotent(a: Action, s: PointerState)
    ensures
        spec_state_after(a, spec_state_after(a, s)) == spec_state_after(a, s),
{
}

} // verus!
