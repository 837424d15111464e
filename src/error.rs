//! Errors of the library: every one is a value returned to the caller.

use vstd::prelude::*;

verus! {

/// Why an application configuration was rejected.
#[derive(Clone, Copy, Debug, PartialEq, Eq, Structural)]
pub enum ConfigError {
    WindowTooSmall,
    InvalidTheme,
    AutoSaveTooShort,
}

#[derive(Clone, Debug)]
pub enum Error {
    /// The application configuration is invalid.
    Config(ConfigError),
    /// A layer with this id is already on the canvas.
    DuplicateLayer(String),
    /// No layer has this id.
    LayerNotFound(String),
    /// The canvas has no layer to receive an element.
    NoActiveLayer,
    /// A tool has no property of this name.
    UnknownProperty(String),
}

} // verus!
