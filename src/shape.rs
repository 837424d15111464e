//! The shape and arrow tools: a drag from a start point to an end point.

use vstd::prelude::*;
use crate::element::{Arrow, ArrowStyle, CanvasElement, Rgba, Shape, ShapeType};
use crate::error::Error;
use crate::tool::{name_is, new_element_id, PropertyValue, ToolEvent, ToolType};

verus! {

fn copy_shape(s: &Shape) -> (r: Shape)
    ensures
        r == *s,
{
    Shape {
        id: s.id.clone(),
        shape_type: s.shape_type,
        start: s.start,
        end: s.end,
        color: s.color,
        fill_color: s.fill_color,
        stroke_width: s.stroke_width,
    }
}

fn copy_arrow(a: &Arrow) -> (r: Arrow)
    ensures
        r == *a,
{
    Arrow {
        id: a.id.clone(),
        start: a.start,
        end: a.end,
        color: a.color,
        stroke_width: a.stroke_width,
        arrow_style: a.arrow_style,
        head_size: a.head_size,
    }
}

/// `w` limited to the range from `lo` to `hi`.
pub open spec fn clamp_u32(w: u32, lo: u32, hi: u32) -> u32 {
    if w < lo {
        lo
    } else if w > hi {
        hi
    } else {
        w
    }
}

fn clamp_exec(w: u32, lo: u32, hi: u32) -> (r: u32)
    ensures
        r == clamp_u32(w, lo, hi),
{
    if w < lo {
        lo
    } else if w > hi {
        hi
    } else {
        w
    }
}

/// Shape settings as exported or imported; an absent field leaves the
/// setting as it is. A present fill colour of `None` removes the fill.
#[derive(Debug, Clone, Copy)]
pub struct ShapeSettings {
    pub shape_type: Option<ShapeType>,
    pub color: Option<Rgba>,
    pub fill_color: Option<Option<Rgba>>,
    pub stroke_width: Option<u32>,
}

/// Arrow settings as exported or imported; an absent field leaves the
/// setting as it is.
#[derive(Debug, Clone, Copy)]
pub struct ArrowSettings {
    pub color: Option<Rgba>,
    pub stroke_width: Option<u32>,
    pub arrow_style: Option<ArrowStyle>,
    pub head_size: Option<u32>,
}

#[derive(Debug)]
pub struct ShapeTool {
    pub shape_type: ShapeType,
    pub current_shape: Option<Shape>,
    pub color: Rgba,
    pub fill_color: Option<Rgba>,
    pub stroke_width: u32,
}

impl ShapeTool {
    pub open spec fn wf(&self) -> bool {
        self.current_shape matches Some(s) ==> s.wf()
    }

    pub open spec fn same_config(&self, o: &ShapeTool) -> bool {
        self.shape_type == o.shape_type && self.color == o.color && self.fill_color == o.fill_color
            && self.stroke_width == o.stroke_width
    }

    pub fn new(shape_type: ShapeType) -> (r: ShapeTool)
        ensures
            r.shape_type == shape_type,
            r.current_shape is None,
            r.color == (Rgba { r: 0, g: 0, b: 0, a: 255 }),
            r.fill_color is None,
            r.stroke_width == 2000,
    {
        ShapeTool {
            shape_type,
            current_shape: None,
            color: Rgba { r: 0, g: 0, b: 0, a: 255 },
            fill_color: None,
            stroke_width: 2000,
        }
    }

    pub fn tool_type(&self) -> (r: ToolType)
        ensures
            r == ToolType::Shape,
    {
        ToolType::Shape
    }

    pub fn set_shape_type(&mut self, shape_type: ShapeType)
        ensures
            *final(self) == (ShapeTool { shape_type, ..*old(self) }),
    {
        self.shape_type = shape_type;
    }

    pub fn set_color(&mut self, r: u8, g: u8, b: u8, a: u8)
        ensures
            *final(self) == (ShapeTool { color: Rgba { r, g, b, a }, ..*old(self) }),
    {
        self.color = Rgba { r, g, b, a };
    }

    pub fn set_fill_color(&mut self, fill: Option<Rgba>)
        ensures
            *final(self) == (ShapeTool { fill_color: fill, ..*old(self) }),
    {
        self.fill_color = fill;
    }

    /// Sets the stroke width, clamped to between half a unit and a hundred units.
    pub fn set_stroke_width(&mut self, width: u32)
        ensures
            *final(self) == (ShapeTool { stroke_width: clamp_u32(width, 500, 100_000), ..*old(self) }),
    {
        self.stroke_width = clamp_exec(width, 500, 100_000);
    }

    /// The relation between the tool before (`old`) and after (`new`) it
    /// handles `event`, and the result `r`.
    pub open spec fn step(old: &ShapeTool, new: &ShapeTool, event: ToolEvent, r: Result<(), Error>) -> bool {
        match event {
            ToolEvent::Down { position, .. } => r is Ok && new.same_config(old)
                && (new.current_shape matches Some(s) && s.id@.len() == 36
                    && s.shape_type == old.shape_type && s.start == position && s.end == position
                    && s.color == old.color && s.fill_color == old.fill_color
                    && s.stroke_width == old.stroke_width),
            ToolEvent::Move { position, .. } => r is Ok && new.same_config(old)
                && match old.current_shape {
                    Some(s) => new.current_shape == Some(Shape { end: position, ..s }),
                    None => new.current_shape is None,
                },
            ToolEvent::Up { position } => r is Ok && new.same_config(old)
                && match old.current_shape {
                    Some(s) => new.current_shape == Some(Shape { end: position, ..s }),
                    None => new.current_shape is None,
                },
            ToolEvent::PropertyChanged { name, value } => {
                &&& new.current_shape == old.current_shape
                &&& if name@ == "shape_type"@ {
                    r is Ok && *new == (ShapeTool {
                        shape_type: match value { PropertyValue::Shape(t) => t, _ => old.shape_type },
                        ..*old
                    })
                } else if name@ == "color"@ {
                    r is Ok && *new == (ShapeTool {
                        color: match value { PropertyValue::Color(c) => c, _ => old.color },
                        ..*old
                    })
                } else if name@ == "fill_color"@ {
                    r is Ok && *new == (ShapeTool {
                        fill_color: match value { PropertyValue::FillColor(c) => c, _ => old.fill_color },
                        ..*old
                    })
                } else if name@ == "stroke_width"@ {
                    r is Ok && *new == (ShapeTool {
                        stroke_width: match value { PropertyValue::Size(w) => w, _ => old.stroke_width },
                        ..*old
                    })
                } else {
                    (r matches Err(Error::UnknownProperty(n)) && n@ == name@) && new.same_config(old)
                }
            },
        }
    }

    /// Down starts a shape of the current settings with both corners at the
    /// position; Move and Up move its end corner. A property change sets
    /// `shape_type`, `color`, `fill_color` or `stroke_width` when the value
    /// has the matching kind, and fails for any other name.
    pub fn handle_event(&mut self, event: ToolEvent) -> (r: Result<(), Error>)
        requires
            old(self).wf(),
            event.wf(),
        ensures
            final(self).wf(),
            ShapeTool::step(old(self), final(self), event, r),

    {
        match event {
            ToolEvent::Down { position, .. } => {
                let id = new_element_id();
                self.current_shape = Some(
                    Shape {
                        id,
                        shape_type: self.shape_type,
                        start: position,
                        end: position,
                        color: self.color,
                        fill_color: self.fill_color,
                        stroke_width: self.stroke_width,
                    },
                );
                Ok(())
            },
            ToolEvent::Move { position, .. } | ToolEvent::Up { position } => {
                if let Some(shape) = self.current_shape.take() {
                    let mut shape = shape;
                    shape.end = position;
                    self.current_shape = Some(shape);
                }
                Ok(())
            },
            ToolEvent::PropertyChanged { name, value } => {
                if name_is(&name, "shape_type") {
                    if let PropertyValue::Shape(t) = value {
                        self.shape_type = t;
                    }
                    Ok(())
                } else if name_is(&name, "color") {
                    if let PropertyValue::Color(c) = value {
                        self.color = c;
                    }
                    Ok(())
                } else if name_is(&name, "fill_color") {
                    if let PropertyValue::FillColor(c) = value {
                        self.fill_color = c;
                    }
                    Ok(())
                } else if name_is(&name, "stroke_width") {
                    if let PropertyValue::Size(w) = value {
                        self.stroke_width = w;
                    }
                    Ok(())
                } else {
                    Err(Error::UnknownProperty(name))
                }
            },
        }
    }

    pub fn settings(&self) -> (r: ShapeSettings)
        ensures
            r == (ShapeSettings {
                shape_type: Some(self.shape_type),
                color: Some(self.color),
                fill_color: Some(self.fill_color),
                stroke_width: Some(self.stroke_width),
            }),
    {
        ShapeSettings {
            shape_type: Some(self.shape_type),
            color: Some(self.color),
            fill_color: Some(self.fill_color),
            stroke_width: Some(self.stroke_width),
        }
    }

    /// Takes each present setting; the others, and the gesture, stay.
    pub fn apply_settings(&mut self, s: ShapeSettings)
        ensures
            *final(self) == (ShapeTool {
                shape_type: match s.shape_type { Some(t) => t, None => old(self).shape_type },
                color: match s.color { Some(c) => c, None => old(self).color },
                fill_color: match s.fill_color { Some(f) => f, None => old(self).fill_color },
                stroke_width: match s.stroke_width { Some(w) => w, None => old(self).stroke_width },
                ..*old(self)
            }),
    {
        if let Some(t) = s.shape_type {
            self.shape_type = t;
        }
        if let Some(c) = s.color {
            self.color = c;
        }
        if let Some(f) = s.fill_color {
            self.fill_color = f;
        }
        if let Some(w) = s.stroke_width {
            self.stroke_width = w;
        }
    }

    /// The shape dragged so far, if a gesture has started.
    pub fn create_element(&self) -> (r: Option<CanvasElement>)
        ensures
            match self.current_shape {
                Some(s) => r == Some(CanvasElement::Shape(s)),
                None => r is None,
            },
    {
        match &self.current_shape {
            Some(s) => Some(CanvasElement::Shape(copy_shape(s))),
            None => None,
        }
    }

    pub fn reset(&mut self)
        ensures
            *final(self) == (ShapeTool { current_shape: None, ..*old(self) }),
    {
        self.current_shape = None;
    }
}

#[derive(Debug)]
pub struct ArrowTool {
    pub current_arrow: Option<Arrow>,
    pub color: Rgba,
    pub stroke_width: u32,
    pub arrow_style: ArrowStyle,
    pub head_size: u32,
}

impl ArrowTool {
    pub open spec fn wf(&self) -> bool {
        self.current_arrow matches Some(a) ==> a.wf()
    }

    pub open spec fn same_config(&self, o: &ArrowTool) -> bool {
        self.color == o.color && self.stroke_width == o.stroke_width && self.arrow_style
            == o.arrow_style && self.head_size == o.head_size
    }

    pub fn new() -> (r: ArrowTool)
        ensures
            r.current_arrow is None,
            r.color == (Rgba { r: 0, g: 0, b: 0, a: 255 }),
            r.stroke_width == 2000,
            r.arrow_style == ArrowStyle::Simple,
            r.head_size == 10_000,
    {
        ArrowTool {
            current_arrow: None,
            color: Rgba { r: 0, g: 0, b: 0, a: 255 },
            stroke_width: 2000,
            arrow_style: ArrowStyle::Simple,
            head_size: 10_000,
        }
    }

    pub fn tool_type(&self) -> (r: ToolType)
        ensures
            r == ToolType::Arrow,
    {
        ToolType::Arrow
    }

    pub fn set_color(&mut self, r: u8, g: u8, b: u8, a: u8)
        ensures
            *final(self) == (ArrowTool { color: Rgba { r, g, b, a }, ..*old(self) }),
    {
        self.color = Rgba { r, g, b, a };
    }

    /// Sets the stroke width, clamped to between half a unit and a hundred units.
    pub fn set_stroke_width(&mut self, width: u32)
        ensures
            *final(self) == (ArrowTool { stroke_width: clamp_u32(width, 500, 100_000), ..*old(self) }),
    {
        self.stroke_width = clamp_exec(width, 500, 100_000);
    }

    pub fn set_arrow_style(&mut self, style: ArrowStyle)
        ensures
            *final(self) == (ArrowTool { arrow_style: style, ..*old(self) }),
    {
        self.arrow_style = style;
    }

    /// Sets the head size, clamped to between five and fifty units.
    pub fn set_head_size(&mut self, size: u32)
        ensures
            *final(self) == (ArrowTool { head_size: clamp_u32(size, 5000, 50_000), ..*old(self) }),
    {
        self.head_size = clamp_exec(size, 5000, 50_000);
    }

    /// The relation between the tool before (`old`) and after (`new`) it
    /// handles `event`, and the result `r`.
    pub open spec fn step(old: &ArrowTool, new: &ArrowTool, event: ToolEvent, r: Result<(), Error>) -> bool {
        match event {
            ToolEvent::Down { position, .. } => r is Ok && new.same_config(old)
                && (new.current_arrow matches Some(a) && a.id@.len() == 36
                    && a.start == position && a.end == position && a.color == old.color
                    && a.stroke_width == old.stroke_width && a.arrow_style == old.arrow_style
                    && a.head_size == old.head_size),
            ToolEvent::Move { position, .. } => r is Ok && new.same_config(old)
                && match old.current_arrow {
                    Some(a) => new.current_arrow == Some(Arrow { end: position, ..a }),
                    None => new.current_arrow is None,
                },
            ToolEvent::Up { position } => r is Ok && new.same_config(old)
                && match old.current_arrow {
                    Some(a) => new.current_arrow == Some(Arrow { end: position, ..a }),
                    None => new.current_arrow is None,
                },
            ToolEvent::PropertyChanged { name, value } => {
                &&& new.current_arrow == old.current_arrow
                &&& if name@ == "color"@ {
                    r is Ok && *new == (ArrowTool {
                        color: match value { PropertyValue::Color(c) => c, _ => old.color },
                        ..*old
                    })
                } else if name@ == "stroke_width"@ {
                    r is Ok && *new == (ArrowTool {
                        stroke_width: match value { PropertyValue::Size(w) => w, _ => old.stroke_width },
                        ..*old
                    })
                } else if name@ == "arrow_style"@ {
                    r is Ok && *new == (ArrowTool {
                        arrow_style: match value { PropertyValue::Style(st) => st, _ => old.arrow_style },
                        ..*old
                    })
                } else if name@ == "head_size"@ {
                    r is Ok && *new == (ArrowTool {
                        head_size: match value { PropertyValue::Size(w) => w, _ => old.head_size },
                        ..*old
                    })
                } else {
                    (r matches Err(Error::UnknownProperty(n)) && n@ == name@) && new.same_config(old)
                }
            },
        }
    }

    /// Down starts an arrow of the current settings from the position to
    /// itself; Move and Up move its tip. A property change sets `color`,
    /// `stroke_width`, `arrow_style` or `head_size` when the value has the
    /// matching kind, and fails for any other name.
    pub fn handle_event(&mut self, event: ToolEvent) -> (r: Result<(), Error>)
        requires
            old(self).wf(),
            event.wf(),
        ensures
            final(self).wf(),
            ArrowTool::step(old(self), final(self), event, r),

    {
        match event {
            ToolEvent::Down { position, .. } => {
                let id = new_element_id();
                self.current_arrow = Some(
                    Arrow {
                        id,
                        start: position,
                        end: position,
                        color: self.color,
                        stroke_width: self.stroke_width,
                        arrow_style: self.arrow_style,
                        head_size: self.head_size,
                    },
                );
                Ok(())
            },
            ToolEvent::Move { position, .. } | ToolEvent::Up { position } => {
                if let Some(arrow) = self.current_arrow.take() {
                    let mut arrow = arrow;
                    arrow.end = position;
                    self.current_arrow = Some(arrow);
                }
                Ok(())
            },
            ToolEvent::PropertyChanged { name, value } => {
                if name_is(&name, "color") {
                    if let PropertyValue::Color(c) = value {
                        self.color = c;
                    }
                    Ok(())
                } else if name_is(&name, "stroke_width") {
                    if let PropertyValue::Size(w) = value {
                        self.stroke_width = w;
                    }
                    Ok(())
                } else if name_is(&name, "arrow_style") {
                    if let PropertyValue::Style(st) = value {
                        self.arrow_style = st;
                    }
                    Ok(())
                } else if name_is(&name, "head_size") {
                    if let PropertyValue::Size(w) = value {
                        self.head_size = w;
                    }
                    Ok(())
                } else {
                    Err(Error::UnknownProperty(name))
                }
            },
        }
    }

    pub fn settings(&self) -> (r: ArrowSettings)
        ensures
            r == (ArrowSettings {
                color: Some(self.color),
                stroke_width: Some(self.stroke_width),
                arrow_style: Some(self.arrow_style),
                head_size: Some(self.head_size),
            }),
    {
        ArrowSettings {
            color: Some(self.color),
            stroke_width: Some(self.stroke_width),
            arrow_style: Some(self.arrow_style),
            head_size: Some(self.head_size),
        }
    }

    /// Takes each present setting; the others, and the gesture, stay.
    pub fn apply_settings(&mut self, s: ArrowSettings)
        ensures
            *final(self) == (ArrowTool {
                color: match s.color { Some(c) => c, None => old(self).color },
                stroke_width: match s.stroke_width { Some(w) => w, None => old(self).stroke_width },
                arrow_style: match s.arrow_style { Some(a) => a, None => old(self).arrow_style },
                head_size: match s.head_size { Some(h) => h, None => old(self).head_size },
                ..*old(self)
            }),
    {
        if let Some(c) = s.color {
            self.color = c;
        }
        if let Some(w) = s.stroke_width {
            self.stroke_width = w;
        }
        if let Some(a) = s.arrow_style {
            self.arrow_style = a;
        }
        if let Some(h) = s.head_size {
            self.head_size = h;
        }
    }

    /// The arrow dragged so far, if a gesture has started.
    pub fn create_element(&self) -> (r: Option<CanvasElement>)
        ensures
            match self.current_arrow {
                Some(a) => r == Some(CanvasElement::Arrow(a)),
                None => r is None,
            },
    {
        match &self.current_arrow {
            Some(a) => Some(CanvasElement::Arrow(copy_arrow(a))),
            None => None,
        }
    }

    pub fn reset(&mut self)
        ensures
            *final(self) == (ArrowTool { current_arrow: None, ..*old(self) }),
    {
        self.current_arrow = None;
    }
}

} // verus!
