//! What all drawing tools share: their kinds, the gesture events they
//! consume, and typed property values.

use vstd::prelude::*;
use crate::element::{ArrowStyle, Rgba, ShapeType, TextAlignment};
use crate::geometry::Point;

verus! {

#[derive(Clone, Copy, Debug, PartialEq, Eq, Structural)]
pub enum ToolType {
    Brush,
    Shape,
    Arrow,
    Eraser,
    Text,
    Selection,
}

#[derive(Clone, Copy, Debug, PartialEq, Eq, Structural)]
pub enum SelectionMode {
    Rectangle,
    Lasso,
}

impl SelectionMode {
    /// Lasso for "lasso", rectangle for any other name.
    pub fn from_name(name: &str) -> (r: SelectionMode)
        ensures
            r == (if name@ == "lasso"@ {
                SelectionMode::Lasso
            } else {
                SelectionMode::Rectangle
            }),
    {
        let n = name.to_owned();
        if n == "lasso".to_owned() {
            SelectionMode::Lasso
        } else {
            SelectionMode::Rectangle
        }
    }

    pub fn name(&self) -> (r: &'static str)
        ensures
            r@ == (match self {
                SelectionMode::Rectangle => "rectangle"@,
                SelectionMode::Lasso => "lasso"@,
            }),
    {
        match self {
            SelectionMode::Rectangle => "rectangle",
            SelectionMode::Lasso => "lasso",
        }
    }
}

/// A value for a tool property. Sizes and widths are in thousandths of a unit.
#[derive(Clone, Debug)]
pub enum PropertyValue {
    Color(Rgba),
    FillColor(Option<Rgba>),
    Size(u32),
    Flag(bool),
    Text(String),
    Shape(ShapeType),
    Style(ArrowStyle),
    Alignment(TextAlignment),
    Mode(SelectionMode),
}

/// A pointer gesture step, or a change of a tool property. Pressure is in
/// thousandths; a device without pressure sensing reports 1000.
#[derive(Clone, Debug)]
pub enum ToolEvent {
    Down { position: Point, pressure: u32 },
    Move { position: Point, pressure: u32 },
    Up { position: Point },
    PropertyChanged { name: String, value: PropertyValue },
}

impl ToolEvent {
    /// Every position lies within the supported range.
    pub open spec fn wf(&self) -> bool {
        match self {
            ToolEvent::Down { position, .. } => position.wf(),
            ToolEvent::Move { position, .. } => position.wf(),
            ToolEvent::Up { position } => position.wf(),
            ToolEvent::PropertyChanged { .. } => true,
        }
    }
}

/// The property name `name` is `key`.
pub(crate) fn name_is(name: &String, key: &str) -> (r: bool)
    ensures
        r == (name@ == key@),
{
    let k = key.to_owned();
    *name == k
}

/// Relies on `uuid::Uuid::new_v4` and its `Display` form: a fresh random id
/// written in the 36-character hyphenated form.
#[verifier::external_body]
pub(crate) fn new_element_id() -> (r: String)
    ensures
        r@.len() == 36,
{
    uuid::Uuid::new_v4().to_string()
}

} // verus!
