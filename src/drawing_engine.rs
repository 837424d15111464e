//! A simple stroke recorder: strokes are begun, extended and ended with
//! the current tool, colour and size, and kept in the order they ended.

use vstd::prelude::*;
use crate::element::{Rgba, StrokePoint};
use crate::geometry::Point;

verus! {

/// The drawing tools of the stroke recorder.
#[derive(Clone, Copy, Debug, PartialEq, Eq, Structural)]
pub enum Tool {
    Pencil,
    Line,
    Rectangle,
    Ellipse,
    Eraser,
}

impl Tool {
    pub open spec fn from_name_spec(name: Seq<char>) -> Tool {
        if name == "line"@ {
            Tool::Line
        } else if name == "rectangle"@ {
            Tool::Rectangle
        } else if name == "ellipse"@ {
            Tool::Ellipse
        } else if name == "eraser"@ {
            Tool::Eraser
        } else {
            Tool::Pencil
        }
    }

    /// The tool of this name; the pencil for any name it does not know.
    pub fn from_name(name: &str) -> (r: Tool)
        ensures
            r == Tool::from_name_spec(name@),
    {
        let n = name.to_owned();
        if n == "line".to_owned() {
            Tool::Line
        } else if n == "rectangle".to_owned() {
            Tool::Rectangle
        } else if n == "ellipse".to_owned() {
            Tool::Ellipse
        } else if n == "eraser".to_owned() {
            Tool::Eraser
        } else {
            Tool::Pencil
        }
    }
}

impl From<String> for Tool {
    fn from(s: String) -> (r: Tool) {
        Tool::from_name(s.as_str())
    }
}

impl vstd::std_specs::convert::FromSpecImpl<String> for Tool {
    open spec fn obeys_from_spec() -> bool {
        true
    }

    open spec fn from_spec(s: String) -> Tool {
        Tool::from_name_spec(s@)
    }
}

/// A recorded stroke; its size is in thousandths of a unit.
#[derive(Debug)]
pub struct Stroke {
    pub points: Vec<StrokePoint>,
    pub color: Rgba,
    pub size: u32,
    pub tool: Tool,
}

#[derive(Debug)]
pub struct DrawingEngine {
    pub strokes: Vec<Stroke>,
    pub current_stroke: Option<Stroke>,
    pub current_tool: Tool,
    pub current_color: Rgba,
    pub current_size: u32,
}

impl DrawingEngine {
    /// No strokes; pencil, black, two units wide.
    pub fn new() -> (r: DrawingEngine)
        ensures
            r.strokes@.len() == 0,
            r.current_stroke is None,
            r.current_tool == Tool::Pencil,
            r.current_color == (Rgba { r: 0, g: 0, b: 0, a: 255 }),
            r.current_size == 2000,
    {
        DrawingEngine {
            strokes: Vec::new(),
            current_stroke: None,
            current_tool: Tool::Pencil,
            current_color: Rgba { r: 0, g: 0, b: 0, a: 255 },
            current_size: 2000,
        }
    }

    pub fn set_tool(&mut self, tool: Tool)
        ensures
            final(self).current_tool == tool,
            final(self).current_color == old(self).current_color,
            final(self).current_size == old(self).current_size,
            final(self).strokes@ == old(self).strokes@,
            final(self).current_stroke == old(self).current_stroke,
    {
        self.current_tool = tool;
    }

    pub fn set_color(&mut self, r: u8, g: u8, b: u8, a: u8)
        ensures
            final(self).current_color == (Rgba { r, g, b, a }),
            final(self).current_tool == old(self).current_tool,
            final(self).current_size == old(self).current_size,
            final(self).strokes@ == old(self).strokes@,
            final(self).current_stroke == old(self).current_stroke,
    {
        self.current_color = Rgba { r, g, b, a };
    }

    pub fn set_brush_size(&mut self, size: u32)
        ensures
            final(self).current_size == size,
            final(self).current_tool == old(self).current_tool,
            final(self).current_color == old(self).current_color,
            final(self).strokes@ == old(self).strokes@,
            final(self).current_stroke == old(self).current_stroke,
    {
        self.current_size = size;
    }

    /// Starts a stroke at `(x, y)` with the current tool, colour and size,
    /// at full pressure; a stroke in progress is dropped.
    pub fn begin_stroke(&mut self, x: i64, y: i64)
        ensures
            final(self).current_stroke matches Some(s) && s.points@ == seq![
                StrokePoint { position: Point { x, y }, pressure: 1000 },
            ] && s.color == old(self).current_color && s.size == old(self).current_size && s.tool
                == old(self).current_tool,
            final(self).strokes@ == old(self).strokes@,
            final(self).current_tool == old(self).current_tool,
            final(self).current_color == old(self).current_color,
            final(self).current_size == old(self).current_size,
    {
        let mut points: Vec<StrokePoint> = Vec::new();
        points.push(StrokePoint { position: Point { x, y }, pressure: 1000 });
        assert(points@ =~= seq![StrokePoint { position: Point { x, y }, pressure: 1000 }]);
        self.current_stroke = Some(
            Stroke {
                points,
                color: self.current_color,
                size: self.current_size,
                tool: self.current_tool,
            },
        );
    }

    /// Adds `(x, y)` at full pressure to the stroke in progress, if any.
    pub fn continue_stroke(&mut self, x: i64, y: i64)
        ensures
            match old(self).current_stroke {
                Some(s) => final(self).current_stroke matches Some(t) && t.points@ == s.points@.push(
                    StrokePoint { position: Point { x, y }, pressure: 1000 },
                ) && t.color == s.color && t.size == s.size && t.tool == s.tool,
                None => final(self).current_stroke is None,
            },
            final(self).strokes@ == old(self).strokes@,
            final(self).current_tool == old(self).current_tool,
            final(self).current_color == old(self).current_color,
            final(self).current_size == old(self).current_size,
    {
        if let Some(stroke) = self.current_stroke.take() {
            let mut stroke = stroke;
            stroke.points.push(StrokePoint { position: Point { x, y }, pressure: 1000 });
            self.current_stroke = Some(stroke);
        }
    }

    /// Moves the stroke in progress, if any, to the end of the recorded strokes.
    pub fn end_stroke(&mut self)
        ensures
            final(self).current_stroke is None,
            match old(self).current_stroke {
                Some(s) => final(self).strokes@ == old(self).strokes@.push(s),
                None => final(self).strokes@ == old(self).strokes@,
            },
            final(self).current_tool == old(self).current_tool,
            final(self).current_color == old(self).current_color,
            final(self).current_size == old(self).current_size,
    {
        if let Some(stroke) = self.current_stroke.take() {
            self.strokes.push(stroke);
        }
    }
}

} // verus!
