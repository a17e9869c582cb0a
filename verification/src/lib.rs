//! Remote-input relay core: decodes one serialized control event and resolves
//! the single OS input action it calls for.
//!
//! The host hands in one payload per call; the library decides which pointer
//! action (move, press, release, or none) the payload asks for. Performing the
//! action on the real OS input facility is the host's side of the boundary.

pub mod dispatch;
pub mod event;
pub mod json;

pub use dispatch::{Action, Button, PointerState};
pub use dispatch::{action_for, apply_action, dispatch};
pub use event::{ControlEvent, decode_event};
