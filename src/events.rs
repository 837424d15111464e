//! Application events that observers can be told of.

use vstd::prelude::*;

verus! {

#[derive(Clone, Copy, Debug, PartialEq, Eq, Structural)]
pub struct AppStartupEvent;

#[derive(Clone, Copy, Debug, PartialEq, Eq, Structural)]
pub struct AppShutdownEvent;

#[derive(Clone, Copy, Debug, PartialEq, Eq, Structural)]
pub struct WindowResizeEvent {
    pub width: u32,
    pub height: u32,
}

/// Why the event bus failed.
#[derive(Clone, Copy, Debug, PartialEq, Eq, Structural)]
pub enum EventError {
    HandlerRegistrationFailed,
    EventDispatchFailed,
}

} // verus!
