//! The selection tool: a rectangle between two corners, or a lasso that
//! records every sample and closes on its first point.

use vstd::prelude::*;
use crate::element::CanvasElement;
use crate::error::Error;
use crate::geometry::Point;
use crate::tool::{name_is, PropertyValue, SelectionMode, ToolEvent, ToolType};

verus! {

/// Selection settings as exported or imported; an absent mode leaves it as it is.
#[derive(Debug, Clone, Copy)]
pub struct SelectionSettings {
    pub mode: Option<SelectionMode>,
}

#[derive(Debug)]
pub struct SelectionTool {
    pub mode: SelectionMode,
    pub start_point: Option<Point>,
    pub current_point: Option<Point>,
    pub lasso_points: Vec<Point>,
    /// Ids of the selected elements.
    pub selected_elements: Vec<String>,
}

/// The lasso after the pointer is lifted at `pos`: `pos` is added, then the
/// first point again to close the outline.
pub open spec fn closed_lasso(pts: Seq<Point>, pos: Point) -> Seq<Point> {
    let p1 = pts.push(pos);
    p1.push(p1[0])
}

impl SelectionTool {
    pub fn new() -> (r: SelectionTool)
        ensures
            r.mode == SelectionMode::Rectangle,
            r.start_point is None,
            r.current_point is None,
            r.lasso_points@.len() == 0,
            r.selected_elements@.len() == 0,
    {
        SelectionTool {
            mode: SelectionMode::Rectangle,
            start_point: None,
            current_point: None,
            lasso_points: Vec::new(),
            selected_elements: Vec::new(),
        }
    }

    pub fn tool_type(&self) -> (r: ToolType)
        ensures
            r == ToolType::Selection,
    {
        ToolType::Selection
    }

    pub fn set_mode(&mut self, mode: SelectionMode)
        ensures
            final(self).mode == mode,
            final(self).start_point == old(self).start_point,
            final(self).current_point == old(self).current_point,
            final(self).lasso_points@ == old(self).lasso_points@,
            final(self).selected_elements@ == old(self).selected_elements@,
    {
        self.mode = mode;
    }

    /// The relation between the tool before (`old`) and after (`new`) it
    /// handles `event`, and the result `r`.
    pub open spec fn step(old: &SelectionTool, new: &SelectionTool, event: ToolEvent, r: Result<(), Error>) -> bool {
        match event {
            ToolEvent::Down { position, .. } => r is Ok && new.mode == old.mode
                && new.start_point == Some(position) && new.current_point == Some(position)
                && new.selected_elements@.len() == 0
                && new.lasso_points@ == (if old.mode == SelectionMode::Lasso {
                    seq![position]
                } else {
                    old.lasso_points@
                }),
            ToolEvent::Move { position, .. } => r is Ok && new.mode == old.mode
                && new.start_point == old.start_point && new.current_point == Some(position)
                && new.selected_elements@ == old.selected_elements@
                && new.lasso_points@ == (if old.mode == SelectionMode::Lasso {
                    old.lasso_points@.push(position)
                } else {
                    old.lasso_points@
                }),
            ToolEvent::Up { position } => r is Ok && new.mode == old.mode
                && new.start_point == old.start_point && new.current_point == Some(position)
                && new.selected_elements@ == old.selected_elements@
                && new.lasso_points@ == (if old.mode == SelectionMode::Lasso {
                    closed_lasso(old.lasso_points@, position)
                } else {
                    old.lasso_points@
                }),
            ToolEvent::PropertyChanged { name, value } => new.start_point == old.start_point
                && new.current_point == old.current_point
                && new.lasso_points@ == old.lasso_points@
                && new.selected_elements@ == old.selected_elements@
                && if name@ == "mode"@ {
                    r is Ok && new.mode == (match value { PropertyValue::Mode(m) => m, _ => old.mode })
                } else {
                    (r matches Err(Error::UnknownProperty(n)) && n@ == name@) && new.mode == old.mode
                },
        }
    }

    /// Down sets both corners to the position, clears the selection and, in
    /// lasso mode, starts the outline there. Move sets the current corner and
    /// extends the outline. Up sets the current corner and closes the
    /// outline. A property change sets `mode`, and fails for any other name.
    pub fn handle_event(&mut self, event: ToolEvent) -> (r: Result<(), Error>)
        ensures
            SelectionTool::step(old(self), final(self), event, r),

    {
        match event {
            ToolEvent::Down { position, .. } => {
                self.start_point = Some(position);
                self.current_point = Some(position);
                if self.mode == SelectionMode::Lasso {
                    self.lasso_points = Vec::new();
                    self.lasso_points.push(position);
                    assert(self.lasso_points@ =~= seq![position]);
                }
                self.selected_elements = Vec::new();
                Ok(())
            },
            ToolEvent::Move { position, .. } => {
                self.current_point = Some(position);
                if self.mode == SelectionMode::Lasso {
                    self.lasso_points.push(position);
                }
                Ok(())
            },
            ToolEvent::Up { position } => {
                self.current_point = Some(position);
                if self.mode == SelectionMode::Lasso {
                    self.lasso_points.push(position);
                    let first = self.lasso_points[0];
                    self.lasso_points.push(first);
                }
                Ok(())
            },
            ToolEvent::PropertyChanged { name, value } => {
                if name_is(&name, "mode") {
                    if let PropertyValue::Mode(m) = value {
                        self.mode = m;
                    }
                    Ok(())
                } else {
                    Err(Error::UnknownProperty(name))
                }
            },
        }
    }

    pub fn settings(&self) -> (r: SelectionSettings)
        ensures
            r == (SelectionSettings { mode: Some(self.mode) }),
    {
        SelectionSettings { mode: Some(self.mode) }
    }

    /// Takes the mode when present; the gesture stays.
    pub fn apply_settings(&mut self, s: SelectionSettings)
        ensures
            final(self).mode == (match s.mode { Some(m) => m, None => old(self).mode }),
            final(self).start_point == old(self).start_point,
            final(self).current_point == old(self).current_point,
            final(self).lasso_points@ == old(self).lasso_points@,
            final(self).selected_elements@ == old(self).selected_elements@,
    {
        if let Some(m) = s.mode {
            self.mode = m;
        }
    }

    /// Selection never produces an element.
    pub fn create_element(&self) -> (r: Option<CanvasElement>)
        ensures
            r is None,
    {
        None
    }

    /// Forgets the gesture and the selection; the mode stays.
    pub fn reset(&mut self)
        ensures
            final(self).mode == old(self).mode,
            final(self).start_point is None,
            final(self).current_point is None,
            final(self).lasso_points@.len() == 0,
            final(self).selected_elements@.len() == 0,
    {
        self.start_point = None;
        self.current_point = None;
        self.lasso_points = Vec::new();
        self.selected_elements = Vec::new();
    }
}

} // verus!
