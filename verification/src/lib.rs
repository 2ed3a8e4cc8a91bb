//! Pointer-input core of a retained-mode UI toolkit.
//!
//! The crate normalizes hardware pointer input (mouse, pen, touch) into a
//! single [`events::PointerEvent`] model, routes events to widget subscribers
//! through a per-widget broadcast registry ([`dispatch::PointerAttr`]), and
//! derives multi-tap gestures from the raw tap stream with a small timing
//! state machine ([`tap::TapRecognizer`]).

pub mod dispatch;
pub mod events;
pub mod geom;
pub mod style;
pub mod tap;
