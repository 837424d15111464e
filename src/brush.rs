//! The brush: a freehand stroke that grows with every pointer sample.

use vstd::prelude::*;
use crate::element::{BrushStroke, CanvasElement, Rgba, StrokePoint};
use crate::error::Error;
use crate::geometry::{Point, COORD_LIMIT};
use crate::tool::{name_is, new_element_id, PropertyValue, ToolEvent, ToolType};

verus! {

/// How far a lone sample's companion point lies from it, in thousandths.
pub const NUDGE: i64 = 100;

/// The companion of a lone sample: a negligible step to the right, or to the
/// left at the edge of the range.
pub open spec fn nudged(p: Point) -> Point {
    Point { x: if p.x <= COORD_LIMIT - NUDGE { (p.x + NUDGE) as i64 } else { (p.x - NUDGE) as i64 }, y: p.y }
}

/// The samples after the pointer is lifted at `pos`: `pos` is added unless it
/// repeats the last sample, and a lone sample gets a companion so that the
/// stroke has length.
pub open spec fn closed_points(pts: Seq<StrokePoint>, pos: Point) -> Seq<StrokePoint> {
    let p1 = if pts.len() > 0 && pts.last().position == pos {
        pts
    } else {
        pts.push(StrokePoint { position: pos, pressure: 1000 })
    };
    if p1.len() == 1 {
        p1.push(StrokePoint { position: nudged(p1[0].position), pressure: 1000 })
    } else {
        p1
    }
}

/// The two strokes agree in every field.
pub open spec fn same_stroke(a: BrushStroke, b: BrushStroke) -> bool {
    a.id == b.id && a.points@ == b.points@ && a.color == b.color && a.width == b.width
}

fn copy_stroke(s: &BrushStroke) -> (r: BrushStroke)
    ensures
        same_stroke(r, *s),
{
    let mut points: Vec<StrokePoint> = Vec::new();
    let n = s.points.len();
    let mut i: usize = 0;
    while i < n
        invariant
            n == s.points@.len(),
            i <= n,
            points@ == s.points@.subrange(0, i as int),
        decreases n - i,
    {
        points.push(s.points[i]);
        proof {
            assert(points@ =~= s.points@.subrange(0, i + 1));
        }
        i = i + 1;
    }
    assert(points@ =~= s.points@);
    BrushStroke { id: s.id.clone(), points, color: s.color, width: s.width }
}

/// Brush settings as exported or imported; an absent field leaves the
/// setting as it is.
#[derive(Debug, Clone, Copy)]
pub struct BrushSettings {
    pub color: Option<Rgba>,
    pub width: Option<u32>,
    pub pressure_sensitivity: Option<bool>,
}

#[derive(Debug)]
pub struct BrushTool {
    pub current_stroke: Option<BrushStroke>,
    pub color: Rgba,
    pub width: u32,
    pub pressure_sensitivity: bool,
}

impl BrushTool {
    /// An unfinished stroke has samples, all within the supported range.
    pub open spec fn wf(&self) -> bool {
        self.current_stroke matches Some(s) ==> s.wf() && s.points@.len() > 0
    }

    /// The style settings agree with those of `o`.
    pub open spec fn same_config(&self, o: &BrushTool) -> bool {
        self.color == o.color && self.width == o.width && self.pressure_sensitivity
            == o.pressure_sensitivity
    }

    /// The pressure recorded for a reported one.
    pub open spec fn effective(&self, pressure: u32) -> u32 {
        if self.pressure_sensitivity {
            pressure
        } else {
            1000
        }
    }

    pub fn new() -> (r: BrushTool)
        ensures
            r.current_stroke is None,
            r.color == (Rgba { r: 0, g: 0, b: 0, a: 255 }),
            r.width == 2000,
            r.pressure_sensitivity,
    {
        BrushTool {
            current_stroke: None,
            color: Rgba { r: 0, g: 0, b: 0, a: 255 },
            width: 2000,
            pressure_sensitivity: true,
        }
    }

    pub fn tool_type(&self) -> (r: ToolType)
        ensures
            r == ToolType::Brush,
    {
        ToolType::Brush
    }

    pub fn set_color(&mut self, r: u8, g: u8, b: u8, a: u8)
        ensures
            *final(self) == (BrushTool { color: Rgba { r, g, b, a }, ..*old(self) }),
    {
        self.color = Rgba { r, g, b, a };
    }

    /// Sets the width, clamped to between half a unit and a hundred units.
    pub fn set_width(&mut self, width: u32)
        ensures
            *final(self) == (BrushTool {
                width: if width < 500 { 500 } else if width > 100_000 { 100_000 } else { width },
                ..*old(self)
            }),
    {
        self.width = if width < 500 {
            500
        } else if width > 100_000 {
            100_000
        } else {
            width
        };
    }

    pub fn set_pressure_sensitivity(&mut self, enabled: bool)
        ensures
            *final(self) == (BrushTool { pressure_sensitivity: enabled, ..*old(self) }),
    {
        self.pressure_sensitivity = enabled;
    }

    /// The relation between the tool before (`old`) and after (`new`) it
    /// handles `event`, and the result `r`.
    pub open spec fn step(old: &BrushTool, new: &BrushTool, event: ToolEvent, r: Result<(), Error>) -> bool {
        match event {
            ToolEvent::Down { position, pressure } => r is Ok && new.same_config(old)
                && (new.current_stroke matches Some(s) && s.id@.len() == 36
                    && s.points@ == seq![StrokePoint { position, pressure: old.effective(pressure) }]
                    && s.color == old.color && s.width == old.width),
            ToolEvent::Move { position, pressure } => r is Ok && new.same_config(old)
                && match old.current_stroke {
                    Some(s) => new.current_stroke matches Some(t) && t.id == s.id
                        && t.color == s.color && t.width == s.width && t.points@ == s.points@.push(
                        StrokePoint { position, pressure: old.effective(pressure) }),
                    None => new.current_stroke is None,
                },
            ToolEvent::Up { position } => r is Ok && new.same_config(old)
                && match old.current_stroke {
                    Some(s) => new.current_stroke matches Some(t) && t.id == s.id
                        && t.color == s.color && t.width == s.width && t.points@ == closed_points(s.points@, position),
                    None => new.current_stroke is None,
                },
            ToolEvent::PropertyChanged { name, value } => {
                &&& new.current_stroke == old.current_stroke
                &&& if name@ == "color"@ {
                    r is Ok && new.color == (match value { PropertyValue::Color(c) => c, _ => old.color })
                        && new.width == old.width && new.pressure_sensitivity == old.pressure_sensitivity
                } else if name@ == "width"@ {
                    r is Ok && new.width == (match value { PropertyValue::Size(w) => w, _ => old.width })
                        && new.color == old.color && new.pressure_sensitivity == old.pressure_sensitivity
                } else if name@ == "pressure_sensitivity"@ {
                    r is Ok && new.pressure_sensitivity == (match value { PropertyValue::Flag(b) => b, _ => old.pressure_sensitivity })
                        && new.color == old.color && new.width == old.width
                } else {
                    (r matches Err(Error::UnknownProperty(n)) && n@ == name@) && new.same_config(old)
                }
            },
        }
    }

    /// Down starts a stroke at the position; Move adds a sample to a started
    /// stroke; Up closes it (see `closed_points`). A property change sets
    /// `color`, `width` or `pressure_sensitivity` when the value has the
    /// matching kind, and fails for any other name.
    pub fn handle_event(&mut self, event: ToolEvent) -> (r: Result<(), Error>)
        requires
            old(self).wf(),
            event.wf(),
        ensures
            final(self).wf(),
            BrushTool::step(old(self), final(self), event, r),

    {
        match event {
            ToolEvent::Down { position, pressure } => {
                let effective = if self.pressure_sensitivity {
                    pressure
                } else {
                    1000
                };
                let id = new_element_id();
                let mut points: Vec<StrokePoint> = Vec::new();
                points.push(StrokePoint { position, pressure: effective });
                self.current_stroke = Some(BrushStroke { id, points, color: self.color, width: self.width });
                Ok(())
            },
            ToolEvent::Move { position, pressure } => {
                let effective = if self.pressure_sensitivity {
                    pressure
                } else {
                    1000
                };
                if let Some(stroke) = self.current_stroke.take() {
                    let mut stroke = stroke;
                    stroke.points.push(StrokePoint { position, pressure: effective });
                    self.current_stroke = Some(stroke);
                }
                Ok(())
            },
            ToolEvent::Up { position } => {
                if let Some(stroke) = self.current_stroke.take() {
                    let mut stroke = stroke;
                    let ghost pts = stroke.points@;
                    let n = stroke.points.len();
                    if n == 0 || stroke.points[n - 1].position != position {
                        stroke.points.push(StrokePoint { position, pressure: 1000 });
                    }
                    if stroke.points.len() == 1 {
                        let p = stroke.points[0].position;
                        let x = if p.x <= COORD_LIMIT - NUDGE {
                            p.x + NUDGE
                        } else {
                            p.x - NUDGE
                        };
                        stroke.points.push(StrokePoint { position: Point { x, y: p.y }, pressure: 1000 });
                    }
                    assert(stroke.points@ =~= closed_points(pts, position));
                    self.current_stroke = Some(stroke);
                }
                Ok(())
            },
            ToolEvent::PropertyChanged { name, value } => {
                if name_is(&name, "color") {
                    if let PropertyValue::Color(c) = value {
                        self.color = c;
                    }
                    Ok(())
                } else if name_is(&name, "width") {
                    if let PropertyValue::Size(w) = value {
                        self.width = w;
                    }
                    Ok(())
                } else if name_is(&name, "pressure_sensitivity") {
                    if let PropertyValue::Flag(b) = value {
                        self.pressure_sensitivity = b;
                    }
                    Ok(())
                } else {
                    Err(Error::UnknownProperty(name))
                }
            },
        }
    }

    /// The stroke drawn so far, if a gesture has started.
    pub fn create_element(&self) -> (r: Option<CanvasElement>)
        ensures
            match self.current_stroke {
                Some(s) => r matches Some(CanvasElement::BrushStroke(t)) && same_stroke(t, s),
                None => r is None,
            },
    {
        match &self.current_stroke {
            Some(s) => Some(CanvasElement::BrushStroke(copy_stroke(s))),
            None => None,
        }
    }

    /// Every setting, present.
    pub fn settings(&self) -> (r: BrushSettings)
        ensures
            r == (BrushSettings {
                color: Some(self.color),
                width: Some(self.width),
                pressure_sensitivity: Some(self.pressure_sensitivity),
            }),
    {
        BrushSettings {
            color: Some(self.color),
            width: Some(self.width),
            pressure_sensitivity: Some(self.pressure_sensitivity),
        }
    }

    /// Takes each present setting; the others, and the gesture, stay.
    pub fn apply_settings(&mut self, s: BrushSettings)
        ensures
            final(self).current_stroke == old(self).current_stroke,
            final(self).color == (match s.color { Some(c) => c, None => old(self).color }),
            final(self).width == (match s.width { Some(w) => w, None => old(self).width }),
            final(self).pressure_sensitivity == (match s.pressure_sensitivity {
                Some(p) => p,
                None => old(self).pressure_sensitivity,
            }),
    {
        if let Some(c) = s.color {
            self.color = c;
        }
        if let Some(w) = s.width {
            self.width = w;
        }
        if let Some(p) = s.pressure_sensitivity {
            self.pressure_sensitivity = p;
        }
    }

    /// Drops the unfinished stroke; the settings stay.
    pub fn reset(&mut self)
        ensures
            final(self).current_stroke is None,
            final(self).same_config(old(self)),
    {
        self.current_stroke = None;
    }
}

} // verus!
