//! The tool manager: one persistent instance of every tool, the active
//! kind, and the commit of finished elements into the canvas.

use vstd::prelude::*;
use crate::brush::{same_stroke, BrushSettings, BrushTool};
use crate::canvas::Canvas;
use crate::element::{CanvasElement, ShapeType};
use crate::error::Error;
use crate::eraser::{EraserSettings, EraserTool};
use crate::selection::{SelectionSettings, SelectionTool};
use crate::shape::{ArrowSettings, ArrowTool, ShapeSettings, ShapeTool};
use crate::text::{TextSettings, TextTool};
use crate::tool::{ToolEvent, ToolType};

verus! {

/// The settings of one tool, tagged with its kind.
#[derive(Debug, Clone)]
pub enum ToolSettings {
    Brush(BrushSettings),
    Shape(ShapeSettings),
    Arrow(ArrowSettings),
    Eraser(EraserSettings),
    Text(TextSettings),
    Selection(SelectionSettings),
}

#[derive(Debug)]
pub struct ToolManager {
    pub brush: BrushTool,
    pub shape: ShapeTool,
    pub arrow: ArrowTool,
    pub eraser: EraserTool,
    pub text: TextTool,
    pub selection: SelectionTool,
    pub active_tool_type: ToolType,
}

impl ToolManager {
    pub open spec fn wf(&self) -> bool {
        self.brush.wf() && self.shape.wf() && self.arrow.wf() && self.eraser.wf()
    }

    /// Every tool keeps the settings it has in `o`.
    pub open spec fn same_configs(&self, o: &ToolManager) -> bool {
        &&& self.brush.same_config(&o.brush)
        &&& self.shape.same_config(&o.shape)
        &&& self.arrow.same_config(&o.arrow)
        &&& self.eraser.size == o.eraser.size
        &&& self.text.same_config(&o.text)
        &&& self.selection.mode == o.selection.mode
    }

    /// The tool of kind `t` is the same in both managers.
    pub open spec fn same_tool(&self, o: &ToolManager, t: ToolType) -> bool {
        match t {
            ToolType::Brush => self.brush == o.brush,
            ToolType::Shape => self.shape == o.shape,
            ToolType::Arrow => self.arrow == o.arrow,
            ToolType::Eraser => self.eraser == o.eraser,
            ToolType::Text => self.text == o.text,
            ToolType::Selection => self.selection == o.selection,
        }
    }

    /// The tool of kind `t` holds no unfinished gesture.
    pub open spec fn idle(&self, t: ToolType) -> bool {
        match t {
            ToolType::Brush => self.brush.current_stroke is None,
            ToolType::Shape => self.shape.current_shape is None,
            ToolType::Arrow => self.arrow.current_arrow is None,
            ToolType::Eraser => !self.eraser.is_erasing && self.eraser.last_position is None,
            ToolType::Text => self.text.current_text is None,
            ToolType::Selection => self.selection.start_point is None && self.selection.current_point is None,
        }
    }

    /// The active tool holds a gesture that produces an element.
    pub open spec fn has_pending(&self) -> bool {
        match self.active_tool_type {
            ToolType::Brush => self.brush.current_stroke is Some,
            ToolType::Shape => self.shape.current_shape is Some,
            ToolType::Arrow => self.arrow.current_arrow is Some,
            ToolType::Text => self.text.current_text is Some,
            _ => false,
        }
    }

    /// `e` is the element that the active tool's gesture produces.
    pub open spec fn produces(&self, e: CanvasElement) -> bool {
        match self.active_tool_type {
            ToolType::Brush => self.brush.current_stroke matches Some(s) && e matches CanvasElement::BrushStroke(t)
                && same_stroke(t, s),
            ToolType::Shape => self.shape.current_shape matches Some(s) && e == CanvasElement::Shape(s),
            ToolType::Arrow => self.arrow.current_arrow matches Some(a) && e == CanvasElement::Arrow(a),
            ToolType::Text => self.text.current_text matches Some(t) && e == CanvasElement::Text(t),
            _ => false,
        }
    }

    /// `mid` is this manager after its active tool handled `event` with
    /// result `r`, by that tool's own `step`; the other tools are untouched.
    pub open spec fn took(&self, mid: &ToolManager, event: ToolEvent, r: Result<(), Error>) -> bool {
        &&& mid.active_tool_type == self.active_tool_type
        &&& forall|k: ToolType| k != self.active_tool_type ==> #[trigger] mid.same_tool(self, k)
        &&& match self.active_tool_type {
            ToolType::Brush => BrushTool::step(&self.brush, &mid.brush, event, r),
            ToolType::Shape => ShapeTool::step(&self.shape, &mid.shape, event, r),
            ToolType::Arrow => ArrowTool::step(&self.arrow, &mid.arrow, event, r),
            ToolType::Eraser => EraserTool::step(&self.eraser, &mid.eraser, event, r),
            ToolType::Text => TextTool::step(&self.text, &mid.text, event, r),
            ToolType::Selection => SelectionTool::step(&self.selection, &mid.selection, event, r),
        }
    }

    /// What follows once the tool has handled the event (`mid`, `r0`): a
    /// tool error is returned as it is; after an Up with an element, the
    /// element goes to the canvas's active layer and the tool is reset, or
    /// `NoActiveLayer` is returned; otherwise nothing more changes.
    pub open spec fn then_commits(
        mid: &ToolManager,
        r0: Result<(), Error>,
        event: ToolEvent,
        fin: &ToolManager,
        c0: &Canvas,
        c1: &Canvas,
        r: Result<(), Error>,
    ) -> bool {
        if r0 is Err {
            r == r0 && *fin == *mid && c1.layers_view() == c0.layers_view()
        } else if !(event is Up) || !mid.has_pending() {
            r is Ok && *fin == *mid && c1.layers_view() == c0.layers_view()
        } else {
            match c0.active_index() {
                Some(i) => {
                    &&& r is Ok
                    &&& fin.active_tool_type == mid.active_tool_type
                    &&& fin.same_configs(mid)
                    &&& fin.idle(mid.active_tool_type)
                    &&& forall|k: ToolType| k != mid.active_tool_type ==> #[trigger] fin.same_tool(mid, k)
                    &&& c1.layers_view().len() == c0.layers_view().len()
                    &&& forall|j: int| 0 <= j < c0.layers_view().len() && j != i
                        ==> #[trigger] c1.layers_view()[j] == c0.layers_view()[j]
                    &&& c1.layers_view()[i].id == c0.layers_view()[i].id
                    &&& c1.layers_view()[i].visible == c0.layers_view()[i].visible
                    &&& exists|e: CanvasElement| #[trigger] mid.produces(e)
                        && c1.layers_view()[i].elements@ == c0.layers_view()[i].elements@.push(e)
                },
                None => (r matches Err(Error::NoActiveLayer)) && *fin == *mid && c1.layers_view() == c0.layers_view(),
            }
        }
    }

    /// `next` is this manager after switching to `t`: the outgoing tool has
    /// dropped its gesture, every other tool is untouched, and every tool
    /// keeps its settings.
    pub open spec fn switched_to(&self, next: &ToolManager, t: ToolType) -> bool {
        &&& next.active_tool_type == t
        &&& next.same_configs(self)
        &&& next.idle(self.active_tool_type)
        &&& forall|k: ToolType| k != self.active_tool_type ==> #[trigger] next.same_tool(self, k)
    }

    pub fn new() -> (r: ToolManager)
        ensures
            r.wf(),
            r.active_tool_type == ToolType::Brush,
            r.shape.shape_type == ShapeType::Rectangle,
            forall|k: ToolType| #[trigger] r.idle(k),
    {
        ToolManager {
            brush: BrushTool::new(),
            shape: ShapeTool::new(ShapeType::Rectangle),
            arrow: ArrowTool::new(),
            eraser: EraserTool::new(),
            text: TextTool::new(),
            selection: SelectionTool::new(),
            active_tool_type: ToolType::Brush,
        }
    }

    pub fn get_active_tool(&self) -> (r: ToolType)
        ensures
            r == self.active_tool_type,
    {
        self.active_tool_type
    }

    /// Resets the active tool, then makes `tool_type` the active one.
    pub fn set_active_tool(&mut self, tool_type: ToolType)
        requires
            old(self).wf(),
        ensures
            final(self).wf(),
            old(self).switched_to(final(self), tool_type),
    {
        match self.active_tool_type {
            ToolType::Brush => self.brush.reset(),
            ToolType::Shape => self.shape.reset(),
            ToolType::Arrow => self.arrow.reset(),
            ToolType::Eraser => self.eraser.reset(),
            ToolType::Text => self.text.reset(),
            ToolType::Selection => self.selection.reset(),
        }
        self.active_tool_type = tool_type;
    }

    /// The settings of the tool of kind `tool_type`, whether it is active or not.
    pub fn get_tool_config(&self, tool_type: ToolType) -> (r: ToolSettings)
        ensures
            match tool_type {
                ToolType::Brush => r == ToolSettings::Brush(BrushSettings {
                    color: Some(self.brush.color),
                    width: Some(self.brush.width),
                    pressure_sensitivity: Some(self.brush.pressure_sensitivity),
                }),
                ToolType::Shape => r == ToolSettings::Shape(ShapeSettings {
                    shape_type: Some(self.shape.shape_type),
                    color: Some(self.shape.color),
                    fill_color: Some(self.shape.fill_color),
                    stroke_width: Some(self.shape.stroke_width),
                }),
                ToolType::Arrow => r == ToolSettings::Arrow(ArrowSettings {
                    color: Some(self.arrow.color),
                    stroke_width: Some(self.arrow.stroke_width),
                    arrow_style: Some(self.arrow.arrow_style),
                    head_size: Some(self.arrow.head_size),
                }),
                ToolType::Eraser => r == ToolSettings::Eraser(EraserSettings { size: Some(self.eraser.size) }),
                ToolType::Text => r == ToolSettings::Text(TextSettings {
                    font_family: Some(self.text.style.font_family),
                    font_size: Some(self.text.style.font_size),
                    bold: Some(self.text.style.bold),
                    italic: Some(self.text.style.italic),
                    underline: Some(self.text.style.underline),
                    color: Some(self.text.style.color),
                    alignment: Some(self.text.alignment),
                    default_width: Some(self.text.default_width),
                }),
                ToolType::Selection => r == ToolSettings::Selection(SelectionSettings { mode: Some(self.selection.mode) }),
            },
    {
        match tool_type {
            ToolType::Brush => ToolSettings::Brush(self.brush.settings()),
            ToolType::Shape => ToolSettings::Shape(self.shape.settings()),
            ToolType::Arrow => ToolSettings::Arrow(self.arrow.settings()),
            ToolType::Eraser => ToolSettings::Eraser(self.eraser.settings()),
            ToolType::Text => ToolSettings::Text(self.text.settings()),
            ToolType::Selection => ToolSettings::Selection(self.selection.settings()),
        }
    }

    /// Gives the settings to the tool of their kind, whether it is active or
    /// not; every other tool, and every gesture, stays as it is.
    pub fn set_tool_config(&mut self, settings: ToolSettings)
        requires
            old(self).wf(),
        ensures
            final(self).wf(),
            final(self).active_tool_type == old(self).active_tool_type,
            match settings {
                ToolSettings::Brush(_) => forall|k: ToolType| k != ToolType::Brush ==> #[trigger] final(self).same_tool(old(self), k),
                ToolSettings::Shape(_) => forall|k: ToolType| k != ToolType::Shape ==> #[trigger] final(self).same_tool(old(self), k),
                ToolSettings::Arrow(_) => forall|k: ToolType| k != ToolType::Arrow ==> #[trigger] final(self).same_tool(old(self), k),
                ToolSettings::Eraser(_) => forall|k: ToolType| k != ToolType::Eraser ==> #[trigger] final(self).same_tool(old(self), k),
                ToolSettings::Text(_) => forall|k: ToolType| k != ToolType::Text ==> #[trigger] final(self).same_tool(old(self), k),
                ToolSettings::Selection(_) => forall|k: ToolType| k != ToolType::Selection ==> #[trigger] final(self).same_tool(old(self), k),
            },
            match settings {
                ToolSettings::Brush(s) => final(self).brush.current_stroke == old(self).brush.current_stroke
                    && final(self).brush.color == (match s.color { Some(c) => c, None => old(self).brush.color })
                    && final(self).brush.width == (match s.width { Some(w) => w, None => old(self).brush.width })
                    && final(self).brush.pressure_sensitivity == (match s.pressure_sensitivity {
                        Some(p) => p,
                        None => old(self).brush.pressure_sensitivity,
                    }),
                ToolSettings::Shape(s) => final(self).shape == (ShapeTool {
                    shape_type: match s.shape_type { Some(t) => t, None => old(self).shape.shape_type },
                    color: match s.color { Some(c) => c, None => old(self).shape.color },
                    fill_color: match s.fill_color { Some(f) => f, None => old(self).shape.fill_color },
                    stroke_width: match s.stroke_width { Some(w) => w, None => old(self).shape.stroke_width },
                    ..old(self).shape
                }),
                ToolSettings::Arrow(s) => final(self).arrow == (ArrowTool {
                    color: match s.color { Some(c) => c, None => old(self).arrow.color },
                    stroke_width: match s.stroke_width { Some(w) => w, None => old(self).arrow.stroke_width },
                    arrow_style: match s.arrow_style { Some(a) => a, None => old(self).arrow.arrow_style },
                    head_size: match s.head_size { Some(h) => h, None => old(self).arrow.head_size },
                    ..old(self).arrow
                }),
                ToolSettings::Eraser(s) => final(self).eraser.size == (match s.size { Some(v) => v, None => old(self).eraser.size })
                    && final(self).eraser.is_erasing == old(self).eraser.is_erasing
                    && final(self).eraser.last_position == old(self).eraser.last_position,
                ToolSettings::Text(s) => final(self).text == (TextTool {
                    style: crate::element::TextStyle {
                        font_family: match s.font_family { Some(f) => f, None => old(self).text.style.font_family },
                        font_size: match s.font_size { Some(v) => v, None => old(self).text.style.font_size },
                        bold: match s.bold { Some(b) => b, None => old(self).text.style.bold },
                        italic: match s.italic { Some(b) => b, None => old(self).text.style.italic },
                        underline: match s.underline { Some(b) => b, None => old(self).text.style.underline },
                        color: match s.color { Some(c) => c, None => old(self).text.style.color },
                    },
                    alignment: match s.alignment { Some(a) => a, None => old(self).text.alignment },
                    default_width: match s.default_width { Some(w) => w, None => old(self).text.default_width },
                    ..old(self).text
                }),
                ToolSettings::Selection(s) => final(self).selection.mode == (match s.mode { Some(m) => m, None => old(self).selection.mode })
                    && final(self).selection.start_point == old(self).selection.start_point
                    && final(self).selection.current_point == old(self).selection.current_point,
            },
    {
        match settings {
            ToolSettings::Brush(s) => self.brush.apply_settings(s),
            ToolSettings::Shape(s) => self.shape.apply_settings(s),
            ToolSettings::Arrow(s) => self.arrow.apply_settings(s),
            ToolSettings::Eraser(s) => self.eraser.apply_settings(s),
            ToolSettings::Text(s) => self.text.apply_settings(s),
            ToolSettings::Selection(s) => self.selection.apply_settings(s),
        }
    }

    fn commit(&mut self, element: Option<CanvasElement>, canvas: &mut Canvas) -> (r: Result<(), Error>)
        requires
            old(canvas).wf(),
            old(self).wf(),
        ensures
            final(canvas).wf(),
            final(self).wf(),
            final(canvas).active_view() == old(canvas).active_view(),
            final(canvas).viewport_view() == old(canvas).viewport_view(),
            match element {
                Some(e) => match old(canvas).active_index() {
                    Some(i) => r is Ok && final(self).active_tool_type == old(self).active_tool_type
                        && final(self).same_configs(old(self)) && final(self).idle(old(self).active_tool_type)
                        && (forall|k: ToolType| k != old(self).active_tool_type ==> #[trigger] final(self).same_tool(old(self), k))
                        && final(canvas).layers_view().len() == old(canvas).layers_view().len()
                        && (forall|j: int| 0 <= j < old(canvas).layers_view().len() && j != i
                            ==> #[trigger] final(canvas).layers_view()[j] == old(canvas).layers_view()[j])
                        && final(canvas).layers_view()[i].id == old(canvas).layers_view()[i].id
                        && final(canvas).layers_view()[i].visible == old(canvas).layers_view()[i].visible
                        && final(canvas).layers_view()[i].elements@ == old(canvas).layers_view()[i].elements@.push(e),
                    None => (r matches Err(Error::NoActiveLayer)) && *final(self) == *old(self)
                        && final(canvas).layers_view() == old(canvas).layers_view(),
                },
                None => r is Ok && *final(self) == *old(self) && final(canvas).layers_view() == old(canvas).layers_view(),
            },
    {
        if let Some(e) = element {
            canvas.add_element(e)?;
            match self.active_tool_type {
                ToolType::Brush => self.brush.reset(),
                ToolType::Shape => self.shape.reset(),
                ToolType::Arrow => self.arrow.reset(),
                ToolType::Eraser => self.eraser.reset(),
                ToolType::Text => self.text.reset(),
                ToolType::Selection => self.selection.reset(),
            }
        }
        Ok(())
    }

    /// Hands the event to the active tool. A tool error is returned as it
    /// is. After an Up that the tool took, the element it produced, if any,
    /// goes to the canvas's active layer and the tool is reset. Other tools
    /// are not touched.
    pub fn handle_event(&mut self, event: ToolEvent, canvas: &mut Canvas) -> (r: Result<(), Error>)
        requires
            old(self).wf(),
            old(canvas).wf(),
            event.wf(),
        ensures
            final(self).wf(),
            final(canvas).wf(),
            final(canvas).active_view() == old(canvas).active_view(),
            final(canvas).viewport_view() == old(canvas).viewport_view(),
            exists|mid: ToolManager, r0: Result<(), Error>|
                #[trigger] old(self).took(&mid, event, r0) && ToolManager::then_commits(
                    &mid,
                    r0,
                    event,
                    final(self),
                    old(canvas),
                    final(canvas),
                    r,
                ),
    {
        let ghost ev = event;
        let is_up = matches!(event, ToolEvent::Up { .. });
        let r0 = match self.active_tool_type {
            ToolType::Brush => self.brush.handle_event(event),
            ToolType::Shape => self.shape.handle_event(event),
            ToolType::Arrow => self.arrow.handle_event(event),
            ToolType::Eraser => self.eraser.handle_event(event),
            ToolType::Text => self.text.handle_event(event),
            ToolType::Selection => self.selection.handle_event(event),
        };
        let ghost mid = *self;
        let ghost gr0 = r0;
        proof {
            assert(old(self).took(&mid, ev, gr0));
        }
        if let Err(e) = r0 {
            return Err(e);
        }
        if !is_up {
            return Ok(());
        }
        let element = match self.active_tool_type {
            ToolType::Brush => self.brush.create_element(),
            ToolType::Shape => self.shape.create_element(),
            ToolType::Arrow => self.arrow.create_element(),
            ToolType::Text => self.text.create_element(),
            _ => None,
        };
        proof {
            if element is Some {
                assert(mid.produces(element->Some_0));
            }
            assert(element is Some <==> mid.has_pending());
        }
        self.commit(element, canvas)
    }
}

/// Switching away from a tool and back keeps every tool's settings: after
/// two switches each tool has the settings it had before the first.
pub proof fn lemma_switch_round_trip_keeps_settings(
    m0: ToolManager,
    m1: ToolManager,
    m2: ToolManager,
    away: ToolType,
    back: ToolType,
)
    requires
        m0.switched_to(&m1, away),
        m1.switched_to(&m2, back),
    ensures
        m2.same_configs(&m0),
        m2.active_tool_type == back,
{
}

} // verus!
