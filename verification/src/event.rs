//! The control event: the one entity a payload decodes to, and the decoder
//! that reads it off a parsed JSON document.
//!
//! Decode failure is deliberately silent: a payload that is not well-formed
//! JSON, lacks a string `type`, or carries a present non-null field of the
//! wrong shape decodes to nothing, and the dispatcher then performs nothing.

use vstd::prelude::*;
use crate::json::{
    json_doc_of, json_member_of, json_i64_of, json_str_of, json_is_null, parse_json, json_get,
    json_as_i64, json_as_string, json_value_is_null,
};

verus! {

/// Mathematical model of a decoded control event.
pub ghost struct EventModel {
    pub event_type: Seq<char>,
    pub x: Option<i32>,
    pub y: Option<i32>,
    pub button: Option<Seq<char>>,
    pub key: Option<Seq<char>>,
}

/// One decoded remote-control instruction, built fresh from each payload and
/// discarded after dispatch.
///
/// `x` and `y` are required only for pointer moves; `button` is read only for
/// presses and releases, where any value but `"right"` (absence included)
/// resolves to the left button; `key` is reserved and currently inert.
#[derive(Debug)]
pub struct ControlEvent {
    pub event_type: String,
    pub x: Option<i32>,
    pub y: Option<i32>,
    pub button: Option<String>,
    pub key: Option<String>,
}

impl View for ControlEvent {
    type V = EventModel;

    open spec fn view(&self) -> EventModel {
        EventModel {
            event_type: self.event_type@,
            x: self.x,
            y: self.y,
            button: self.button.deep_view(),
            key: self.key.deep_view(),
        }
    }
}

/// What an optional integer member decodes to: absent or null is accepted as
/// no value, an integer in `i32` range is the value, and any other present
/// member makes the whole event malformed.
pub open spec fn spec_int_field(d: serde_json::Value, key: Seq<char>) -> Result<Option<i32>, ()> {
    match json_member_of(d, key) {
        None => Ok(None),
        Some(f) => if json_is_null(f) {
            Ok(None)
        } else {
            match json_i64_of(f) {
                Some(n) => if i32::MIN <= n && n <= i32::MAX {
                    Ok(Some(n as i32))
                } else {
                    Err(())
                },
                None => Err(()),
            }
        },
    }
}

/// What an optional string member decodes to: absent or null is no value, a
/// string is the value, and any other present member makes the event
/// malformed.
pub open spec fn spec_str_field(d: serde_json::Value, key: Seq<char>) -> Result<
    Option<Seq<char>>,
    (),
> {
    match json_member_of(d, key) {
        None => Ok(None),
        Some(f) => if json_is_null(f) {
            Ok(None)
        } else {
            match json_str_of(f) {
                Some(s) => Ok(Some(s)),
                None => Err(()),
            }
        },
    }
}

/// What the required `type` member decodes to: it must be present and a
/// string, or the event is malformed.
pub open spec fn spec_type_field(d: serde_json::Value) -> Result<Seq<char>, ()> {
    match json_member_of(d, "type"@) {
        None => Err(()),
        Some(f) => match json_str_of(f) {
            Some(s) => Ok(s),
            None => Err(()),
        },
    }
}

/// What a parsed document decodes to: an event exactly when every field
/// decodes, nothing otherwise.
pub open spec fn spec_decode_doc(d: serde_json::Value) -> Option<EventModel> {
    if spec_type_field(d) is Ok && spec_int_field(d, "x"@) is Ok && spec_int_field(d, "y"@) is Ok
        && spec_str_field(d, "button"@) is Ok && spec_str_field(d, "key"@) is Ok {
        Some(
            EventModel {
                event_type: spec_type_field(d)->Ok_0,
                x: spec_int_field(d, "x"@)->Ok_0,
                y: spec_int_field(d, "y"@)->Ok_0,
                button: spec_str_field(d, "button"@)->Ok_0,
                key: spec_str_field(d, "key"@)->Ok_0,
            },
        )
    } else {
        None
    }
}

/// What a payload text decodes to: an event exactly when the text parses as
/// JSON and the document has the event shape.
pub open spec fn spec_decode(s: Seq<char>) -> Option<EventModel> {
    match json_doc_of(s) {
        None => None,
        Some(d) => spec_decode_doc(d),
    }
}

/// Reads an optional integer member off the parsed document.
fn read_int_field(d: &serde_json::Value, key: &str) -> (r: Result<Option<i32>, ()>)
    ensures
        r == spec_int_field(*d, key@),
{
    match json_get(d, key) {
        None => Ok(None),
        Some(f) => if json_value_is_null(f) {
            Ok(None)
        } else {
            match json_as_i64(f) {
                Some(n) => if i32::MIN as i64 <= n && n <= i32::MAX as i64 {
                    Ok(Some(n as i32))
                } else {
                    Err(())
                },
                None => Err(()),
            }
        },
    }
}

/// Reads an optional string member off the parsed document.
fn read_str_field(d: &serde_json::Value, key: &str) -> (r: Result<Option<String>, ()>)
    ensures
        match r {
            Ok(v) => spec_str_field(*d, key@) == Ok::<Option<Seq<char>>, ()>(v.deep_view()),
            Err(_) => spec_str_field(*d, key@) is Err,
        },
{
    match json_get(d, key) {
        None => Ok(None),
        Some(f) => if json_value_is_null(f) {
            Ok(None)
        } else {
            match json_as_string(f) {
                Some(s) => Ok(Some(s)),
                None => Err(()),
            }
        },
    }
}

/// Reads the required `type` member off the parsed document.
fn read_type_field(d: &serde_json::Value) -> (r: Result<String, ()>)
    ensures
        match r {
            Ok(s) => spec_type_field(*d) == Ok::<Seq<char>, ()>(s@),
            Err(_) => spec_type_field(*d) is Err,
        },
{
    match json_get(d, "type") {
        None => Err(()),
        Some(f) => match json_as_string(f) {
            Some(s) => Ok(s),
            None => Err(()),
        },
    }
}

/// Decodes one payload text into a control event, or nothing when the payload
/// is malformed in any way.
pub fn decode_event(payload: &str) -> (r: Option<ControlEvent>)
    ensures
        match r {
            Some(e) => spec_decode(payload@) == Some(e@),
            None => spec_decode(payload@) is None,
        },
{
    let doc = match parse_json(payload) {
        Some(d) => d,
        None => {
            return None;
        },
    };
    let event_type = match read_type_field(&doc) {
        Ok(t) => t,
        Err(_) => {
            return None;
        },
    };
    let x = match read_int_field(&doc, "x") {
        Ok(v) => v,
        Err(_) => {
            return None;
        },
    };
    let y = match read_int_field(&doc, "y") {
        Ok(v) => v,
        Err(_) => {
            return None;
        },
    };
    let button = match read_str_field(&doc, "button") {
        Ok(v) => v,
        Err(_) => {
            return None;
        },
    };
    let key = match read_str_field(&doc, "key") {
        Ok(v) => v,
        Err(_) => {
            return None;
        },
    };
    Some(ControlEvent { event_type, x, y, button, key })
}

} // verus!
