//! Window registry and event-dispatch core of a native windowing library.
//!
//! One message-pump thread owns a set of native windows; a registry maps each
//! window's identifier to the ordered queue its events are delivered through.
//! The modules here hold that registry, the queue, the translation of raw
//! platform messages into typed events, and the pure parts of window
//! creation: style-flag assembly, icon-load validation, and key-code lookup.

use vstd::prelude::*;

pub mod config;
pub mod creation;
pub mod error;
pub mod event;
pub mod queue;
pub mod messages;
pub mod registry;

verus! {

/// The standard cursor shapes a window can ask for.
pub enum CursorType {
    AppStarting,
    Arrow,
    Crosshair,
    Hand,
    Help,
    Text,
    Prohibited,
    ResizeAll,
    ResizeNESW,
    ResizeNWSE,
    ResizeVertical,
    ResizeHoriz,
    UpArrow,
    Wait,
    Invisible,
}

} // verus!
