//! Keyboard-navigation detection for a document-like host environment.
//!
//! The crate decides, from raw keyboard / pointer / touch input patterns,
//! whether the user is currently navigating with the keyboard, and it
//! normalizes focus-change notifications across nested encapsulated
//! sub-trees (shadow roots) into a single canonical focus-in / focus-out
//! stream.  All decisions are made here, on plain values; attaching real
//! listeners, dispatching real events and running timers is left to a thin
//! host binding that feeds events in and performs the actions handed back.

pub mod focus_event;
pub mod keyborg;
