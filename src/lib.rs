//! Per-case accessors over an input event model: events, inputs, buttons and
//! motion samples. The leaf values they carry (keys, mouse buttons, controller
//! and tick arguments) are those of the `input` crate.
//!
//! Every accessor checks a single case of a closed variant type and hands
//! back that case's payload, or `None` on any other case. Each accessor is
//! offered on the bare value and on an `Option` of it; on `None` the wrapped
//! form answers `None` as well.
mod leaf;
pub mod button;
pub mod motion;
pub mod inputs;
pub mod event;
pub mod lemmas;

pub use button::{Button, ButtonTools};
pub use motion::{Motion, MotionTools};
pub use inputs::{Input, InputTools};
pub use event::{Event, EventTools};
