//! What the library knows of the platforms it runs on: input devices,
//! supported formats, clipboard access and feature detection.

use vstd::prelude::*;

verus! {

#[derive(Clone, Copy, Debug, PartialEq, Eq, Structural)]
pub enum InputDeviceType {
    Mouse,
    Touch,
    Pen,
    Unknown,
}

/// The operating systems the feature tables know of.
#[derive(Clone, Copy, Debug, PartialEq, Eq, Structural)]
pub enum TargetOs {
    MacOs,
    Ios,
    Windows,
    Linux,
    Web,
    Other,
}

/// A pointer sample from an input device. Coordinates are in thousandths of
/// a unit, pressure in thousandths, tilt in thousandths between -1000 and 1000.
#[derive(Clone, Copy, Debug, PartialEq, Eq, Structural)]
pub struct InputEvent {
    pub x: i64,
    pub y: i64,
    pub pressure: u32,
    pub tilt_x: i32,
    pub tilt_y: i32,
    pub device_type: InputDeviceType,
}

impl Default for InputEvent {
    /// At the origin, full pressure, no tilt, from an unknown device.
    fn default() -> (r: InputEvent)
        ensures
            r == (InputEvent { x: 0, y: 0, pressure: 1000, tilt_x: 0, tilt_y: 0, device_type: InputDeviceType::Unknown }),
    {
        InputEvent { x: 0, y: 0, pressure: 1000, tilt_x: 0, tilt_y: 0, device_type: InputDeviceType::Unknown }
    }
}

/// The file formats the application reads and writes.
pub fn get_supported_formats() -> (r: Vec<&'static str>)
    ensures
        r@.len() == 4,
        r@[0]@ == "mosp"@,
        r@[1]@ == "png"@,
        r@[2]@ == "jpg"@,
        r@[3]@ == "svg"@,
{
    let mut v: Vec<&'static str> = Vec::new();
    v.push("mosp");
    v.push("png");
    v.push("jpg");
    v.push("svg");
    v
}

/// Copying and pasting raw bytes.
pub trait ClipboardOperations {
    fn copy_to_clipboard(&self, data: &[u8]) -> bool;

    fn paste_from_clipboard(&self) -> Option<Vec<u8>>;
}

/// A clipboard that holds nothing: copying fails and pasting yields nothing.
pub struct DefaultClipboard;

impl ClipboardOperations for DefaultClipboard {
    fn copy_to_clipboard(&self, _data: &[u8]) -> bool {
        false
    }

    fn paste_from_clipboard(&self) -> Option<Vec<u8>> {
        None
    }
}

/// Pressure sensing is available on macOS, iOS and Windows.
pub fn has_pressure_sensitivity(os: TargetOs) -> (r: bool)
    ensures
        r == (os == TargetOs::MacOs || os == TargetOs::Ios || os == TargetOs::Windows),
{
    match os {
        TargetOs::MacOs | TargetOs::Ios | TargetOs::Windows => true,
        _ => false,
    }
}

/// Tilt is available on macOS and iOS.
pub fn has_tilt_support(os: TargetOs) -> (r: bool)
    ensures
        r == (os == TargetOs::MacOs || os == TargetOs::Ios),
{
    match os {
        TargetOs::MacOs | TargetOs::Ios => true,
        _ => false,
    }
}

/// The kinds of pointer event that macOS reports.
#[derive(Clone, Copy, Debug, PartialEq, Eq, Structural)]
pub enum MacEventKind {
    LeftMouseDown,
    LeftMouseUp,
    RightMouseDown,
    RightMouseUp,
    MouseMoved,
    OtherMouseDown,
    OtherMouseUp,
    Other,
}

/// Input handling for macOS.
pub struct MacOSPlatform;

impl MacOSPlatform {
    pub fn new() -> (r: MacOSPlatform) {
        MacOSPlatform
    }

    /// The device behind an event: a pen when the tablet reports a pointer,
    /// else a mouse for left and right buttons and moves, touch for other
    /// buttons (which is how touches arrive), and unknown for the rest.
    pub fn detect_input_device(&self, kind: MacEventKind, tablet_pointer: bool) -> (r: InputDeviceType)
        ensures
            r == (if tablet_pointer {
                InputDeviceType::Pen
            } else {
                match kind {
                    MacEventKind::LeftMouseDown | MacEventKind::LeftMouseUp | MacEventKind::RightMouseDown
                    | MacEventKind::RightMouseUp | MacEventKind::MouseMoved => InputDeviceType::Mouse,
                    MacEventKind::OtherMouseDown | MacEventKind::OtherMouseUp => InputDeviceType::Touch,
                    MacEventKind::Other => InputDeviceType::Unknown,
                }
            }),
    {
        if tablet_pointer {
            return InputDeviceType::Pen;
        }
        match kind {
            MacEventKind::LeftMouseDown | MacEventKind::LeftMouseUp | MacEventKind::RightMouseDown
            | MacEventKind::RightMouseUp | MacEventKind::MouseMoved => InputDeviceType::Mouse,
            MacEventKind::OtherMouseDown | MacEventKind::OtherMouseUp => InputDeviceType::Touch,
            MacEventKind::Other => InputDeviceType::Unknown,
        }
    }
}

} // verus!
