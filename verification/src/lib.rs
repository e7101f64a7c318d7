//! Core engine of a focus timer: the work/break phase state machine,
//! pause and resume, session accounting, and day/week statistics rollover.
//!
//! The engine is pure state behind an exclusive handle: it decides
//! transitions and reports the actions (arm or cancel the one-shot wait,
//! emit notifications, persist statistics) that a surrounding shell must
//! perform. The shell owns the clock's scheduling, the key-value store and
//! the notification boundary.

pub mod clock;
pub mod engine;
pub mod phase;
pub mod rollover;
pub mod settings;
pub mod stats;
