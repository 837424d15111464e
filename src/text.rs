//! The text tool: a click places a text block with the current style.

use vstd::prelude::*;
use crate::element::{CanvasElement, Rgba, TextAlignment, TextElement, TextStyle};
use crate::error::Error;
use crate::shape::clamp_u32;
use crate::tool::{name_is, new_element_id, PropertyValue, ToolEvent, ToolType};

verus! {

fn copy_style(s: &TextStyle) -> (r: TextStyle)
    ensures
        r == *s,
{
    TextStyle {
        font_family: s.font_family.clone(),
        font_size: s.font_size,
        bold: s.bold,
        italic: s.italic,
        underline: s.underline,
        color: s.color,
    }
}

fn copy_text(t: &TextElement) -> (r: TextElement)
    ensures
        r == *t,
{
    TextElement {
        id: t.id.clone(),
        position: t.position,
        width: t.width,
        text: t.text.clone(),
        style: copy_style(&t.style),
        alignment: t.alignment,
    }
}

fn clamp(w: u32, lo: u32, hi: u32) -> (r: u32)
    ensures
        r == clamp_u32(w, lo, hi),
{
    if w < lo {
        lo
    } else if w > hi {
        hi
    } else {
        w
    }
}

impl TextStyle {
    /// Arial, sixteen units, plain, black.
    pub fn default_style() -> (r: TextStyle)
        ensures
            r.font_family@ == "Arial"@,
            r.font_size == 16_000,
            !r.bold && !r.italic && !r.underline,
            r.color == (Rgba { r: 0, g: 0, b: 0, a: 255 }),
    {
        TextStyle {
            font_family: "Arial".to_owned(),
            font_size: 16_000,
            bold: false,
            italic: false,
            underline: false,
            color: Rgba { r: 0, g: 0, b: 0, a: 255 },
        }
    }
}

/// Text settings as exported or imported; an absent field leaves the
/// setting as it is.
#[derive(Debug, Clone)]
pub struct TextSettings {
    pub font_family: Option<String>,
    pub font_size: Option<u32>,
    pub bold: Option<bool>,
    pub italic: Option<bool>,
    pub underline: Option<bool>,
    pub color: Option<Rgba>,
    pub alignment: Option<TextAlignment>,
    pub default_width: Option<u32>,
}

#[derive(Debug)]
pub struct TextTool {
    pub current_text: Option<TextElement>,
    pub style: TextStyle,
    pub alignment: TextAlignment,
    pub default_width: u32,
}

impl TextTool {
    pub open spec fn same_config(&self, o: &TextTool) -> bool {
        self.style == o.style && self.alignment == o.alignment && self.default_width == o.default_width
    }

    pub fn new() -> (r: TextTool)
        ensures
            r.current_text is None,
            r.style.font_family@ == "Arial"@,
            r.style.font_size == 16_000,
            r.alignment == TextAlignment::Left,
            r.default_width == 200_000,
    {
        TextTool {
            current_text: None,
            style: TextStyle::default_style(),
            alignment: TextAlignment::Left,
            default_width: 200_000,
        }
    }

    pub fn tool_type(&self) -> (r: ToolType)
        ensures
            r == ToolType::Text,
    {
        ToolType::Text
    }

    pub fn set_font_family(&mut self, font_family: String)
        ensures
            *final(self) == (TextTool { style: TextStyle { font_family, ..old(self).style }, ..*old(self) }),
    {
        self.style.font_family = font_family;
    }

    /// Sets the font size, clamped to between eight and seventy-two units.
    pub fn set_font_size(&mut self, size: u32)
        ensures
            *final(self) == (TextTool {
                style: TextStyle { font_size: clamp_u32(size, 8000, 72_000), ..old(self).style },
                ..*old(self)
            }),
    {
        self.style.font_size = clamp(size, 8000, 72_000);
    }

    pub fn set_bold(&mut self, bold: bool)
        ensures
            *final(self) == (TextTool { style: TextStyle { bold, ..old(self).style }, ..*old(self) }),
    {
        self.style.bold = bold;
    }

    pub fn set_italic(&mut self, italic: bool)
        ensures
            *final(self) == (TextTool { style: TextStyle { italic, ..old(self).style }, ..*old(self) }),
    {
        self.style.italic = italic;
    }

    pub fn set_underline(&mut self, underline: bool)
        ensures
            *final(self) == (TextTool { style: TextStyle { underline, ..old(self).style }, ..*old(self) }),
    {
        self.style.underline = underline;
    }

    pub fn set_color(&mut self, r: u8, g: u8, b: u8, a: u8)
        ensures
            *final(self) == (TextTool {
                style: TextStyle { color: Rgba { r, g, b, a }, ..old(self).style },
                ..*old(self)
            }),
    {
        self.style.color = Rgba { r, g, b, a };
    }

    pub fn set_alignment(&mut self, alignment: TextAlignment)
        ensures
            *final(self) == (TextTool { alignment, ..*old(self) }),
    {
        self.alignment = alignment;
    }

    /// Sets the width of new blocks, clamped to between fifty and a thousand units.
    pub fn set_default_width(&mut self, width: u32)
        ensures
            *final(self) == (TextTool { default_width: clamp_u32(width, 50_000, 1_000_000), ..*old(self) }),
    {
        self.default_width = clamp(width, 50_000, 1_000_000);
    }

    /// Replaces the text of the block being placed, if there is one.
    pub fn set_text(&mut self, text: String)
        ensures
            final(self).same_config(old(self)),
            match old(self).current_text {
                Some(t) => final(self).current_text == Some(TextElement { text, ..t }),
                None => final(self).current_text is None,
            },
    {
        if let Some(t) = self.current_text.take() {
            let mut t = t;
            t.text = text;
            self.current_text = Some(t);
        }
    }

    /// The relation between the tool before (`old`) and after (`new`) it
    /// handles `event`, and the result `r`.
    pub open spec fn step(old: &TextTool, new: &TextTool, event: ToolEvent, r: Result<(), Error>) -> bool {
        match event {
            ToolEvent::Down { position, .. } => r is Ok && new.same_config(old)
                && (new.current_text matches Some(t) && t.id@.len() == 36
                    && t.position == position && t.width == old.default_width
                    && t.text@ == "Text"@ && t.style == old.style
                    && t.alignment == old.alignment),
            ToolEvent::Move { .. } => r is Ok && *new == *old,
            ToolEvent::Up { .. } => r is Ok && *new == *old,
            ToolEvent::PropertyChanged { name, value } => {
                let o = old.style;
                if name@ == "font_family"@ {
                    r is Ok && *new == (match value {
                        PropertyValue::Text(f) => TextTool { style: TextStyle { font_family: f, ..o }, ..*old },
                        _ => *old,
                    })
                } else if name@ == "font_size"@ {
                    r is Ok && *new == (match value {
                        PropertyValue::Size(s) => TextTool { style: TextStyle { font_size: clamp_u32(s, 8000, 72_000), ..o }, ..*old },
                        _ => *old,
                    })
                } else if name@ == "bold"@ {
                    r is Ok && *new == (match value {
                        PropertyValue::Flag(b) => TextTool { style: TextStyle { bold: b, ..o }, ..*old },
                        _ => *old,
                    })
                } else if name@ == "italic"@ {
                    r is Ok && *new == (match value {
                        PropertyValue::Flag(b) => TextTool { style: TextStyle { italic: b, ..o }, ..*old },
                        _ => *old,
                    })
                } else if name@ == "underline"@ {
                    r is Ok && *new == (match value {
                        PropertyValue::Flag(b) => TextTool { style: TextStyle { underline: b, ..o }, ..*old },
                        _ => *old,
                    })
                } else if name@ == "color"@ {
                    r is Ok && *new == (match value {
                        PropertyValue::Color(c) => TextTool { style: TextStyle { color: c, ..o }, ..*old },
                        _ => *old,
                    })
                } else if name@ == "alignment"@ {
                    r is Ok && *new == (match value {
                        PropertyValue::Alignment(a) => TextTool { alignment: a, ..*old },
                        _ => *old,
                    })
                } else if name@ == "width"@ {
                    r is Ok && *new == (match value {
                        PropertyValue::Size(w) => TextTool { default_width: clamp_u32(w, 50_000, 1_000_000), ..*old },
                        _ => *old,
                    })
                } else if name@ == "text"@ {
                    r is Ok && new.same_config(old) && (match value {
                        PropertyValue::Text(s) => match old.current_text {
                            Some(t) => new.current_text == Some(TextElement { text: s, ..t }),
                            None => new.current_text is None,
                        },
                        _ => new.current_text == old.current_text,
                    })
                } else {
                    (r matches Err(Error::UnknownProperty(n)) && n@ == name@) && *new == *old
                }
            },
        }
    }

    /// Down places a block reading "Text" at the position with the current
    /// style, alignment and width; Move and Up change nothing. A property
    /// change goes to the setter of that name (`font_family`, `font_size`,
    /// `bold`, `italic`, `underline`, `color`, `alignment`, `width`, `text`)
    /// when the value has the matching kind, and fails for any other name.
    pub fn handle_event(&mut self, event: ToolEvent) -> (r: Result<(), Error>)
        ensures
            TextTool::step(old(self), final(self), event, r),

    {
        match event {
            ToolEvent::Down { position, .. } => {
                let id = new_element_id();
                self.current_text = Some(
                    TextElement {
                        id,
                        position,
                        width: self.default_width,
                        text: "Text".to_owned(),
                        style: copy_style(&self.style),
                        alignment: self.alignment,
                    },
                );
                Ok(())
            },
            ToolEvent::Move { .. } | ToolEvent::Up { .. } => Ok(()),
            ToolEvent::PropertyChanged { name, value } => {
                if name_is(&name, "font_family") {
                    if let PropertyValue::Text(f) = value {
                        self.set_font_family(f);
                    }
                    Ok(())
                } else if name_is(&name, "font_size") {
                    if let PropertyValue::Size(s) = value {
                        self.set_font_size(s);
                    }
                    Ok(())
                } else if name_is(&name, "bold") {
                    if let PropertyValue::Flag(b) = value {
                        self.set_bold(b);
                    }
                    Ok(())
                } else if name_is(&name, "italic") {
                    if let PropertyValue::Flag(b) = value {
                        self.set_italic(b);
                    }
                    Ok(())
                } else if name_is(&name, "underline") {
                    if let PropertyValue::Flag(b) = value {
                        self.set_underline(b);
                    }
                    Ok(())
                } else if name_is(&name, "color") {
                    if let PropertyValue::Color(c) = value {
                        self.set_color(c.r, c.g, c.b, c.a);
                    }
                    Ok(())
                } else if name_is(&name, "alignment") {
                    if let PropertyValue::Alignment(a) = value {
                        self.set_alignment(a);
                    }
                    Ok(())
                } else if name_is(&name, "width") {
                    if let PropertyValue::Size(w) = value {
                        self.set_default_width(w);
                    }
                    Ok(())
                } else if name_is(&name, "text") {
                    if let PropertyValue::Text(s) = value {
                        self.set_text(s);
                    }
                    Ok(())
                } else {
                    Err(Error::UnknownProperty(name))
                }
            },
        }
    }

    pub fn settings(&self) -> (r: TextSettings)
        ensures
            r == (TextSettings {
                font_family: Some(self.style.font_family),
                font_size: Some(self.style.font_size),
                bold: Some(self.style.bold),
                italic: Some(self.style.italic),
                underline: Some(self.style.underline),
                color: Some(self.style.color),
                alignment: Some(self.alignment),
                default_width: Some(self.default_width),
            }),
    {
        TextSettings {
            font_family: Some(self.style.font_family.clone()),
            font_size: Some(self.style.font_size),
            bold: Some(self.style.bold),
            italic: Some(self.style.italic),
            underline: Some(self.style.underline),
            color: Some(self.style.color),
            alignment: Some(self.alignment),
            default_width: Some(self.default_width),
        }
    }

    /// Takes each present setting as it is; the others, and the block being
    /// placed, stay.
    pub fn apply_settings(&mut self, s: TextSettings)
        ensures
            *final(self) == (TextTool {
                style: TextStyle {
                    font_family: match s.font_family { Some(f) => f, None => old(self).style.font_family },
                    font_size: match s.font_size { Some(v) => v, None => old(self).style.font_size },
                    bold: match s.bold { Some(b) => b, None => old(self).style.bold },
                    italic: match s.italic { Some(b) => b, None => old(self).style.italic },
                    underline: match s.underline { Some(b) => b, None => old(self).style.underline },
                    color: match s.color { Some(c) => c, None => old(self).style.color },
                },
                alignment: match s.alignment { Some(a) => a, None => old(self).alignment },
                default_width: match s.default_width { Some(w) => w, None => old(self).default_width },
                ..*old(self)
            }),
    {
        if let Some(f) = s.font_family {
            self.style.font_family = f;
        }
        if let Some(v) = s.font_size {
            self.style.font_size = v;
        }
        if let Some(b) = s.bold {
            self.style.bold = b;
        }
        if let Some(b) = s.italic {
            self.style.italic = b;
        }
        if let Some(b) = s.underline {
            self.style.underline = b;
        }
        if let Some(c) = s.color {
            self.style.color = c;
        }
        if let Some(a) = s.alignment {
            self.alignment = a;
        }
        if let Some(w) = s.default_width {
            self.default_width = w;
        }
    }

    /// The block being placed, if any.
    pub fn create_element(&self) -> (r: Option<CanvasElement>)
        ensures
            match self.current_text {
                Some(t) => r == Some(CanvasElement::Text(t)),
                None => r is None,
            },
    {
        match &self.current_text {
            Some(t) => Some(CanvasElement::Text(copy_text(t))),
            None => None,
        }
    }

    pub fn reset(&mut self)
        ensures
            *final(self) == (TextTool { current_text: None, ..*old(self) }),
    {
        self.current_text = None;
    }
}

} // verus!
