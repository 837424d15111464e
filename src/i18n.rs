//! Interface strings in English and Chinese.

use vstd::prelude::*;

verus! {

#[derive(Clone, Copy, Debug, PartialEq, Eq, Hash, Structural)]
pub enum Language {
    English,
    Chinese,
}

/// The language of the interface.
pub const CURRENT_LANGUAGE: Language = Language::Chinese;

/// The translation of `key` into `lang`, if the table has one.
pub open spec fn translation(lang: Language, key: Seq<char>) -> Option<Seq<char>> {
    match lang {
        Language::English => if key == "app_title"@ {
            Some("Mosp"@)
        } else if key == "canvas_placeholder"@ {
            Some("Canvas will be implemented here"@)
        } else if key == "properties"@ {
            Some("Properties"@)
        } else if key == "tool_properties"@ {
            Some("Tool properties will be shown here"@)
        } else if key == "brush_tool"@ {
            Some("Brush"@)
        } else if key == "shape_tool"@ {
            Some("Shape"@)
        } else if key == "arrow_tool"@ {
            Some("Arrow"@)
        } else if key == "eraser_tool"@ {
            Some("Eraser"@)
        } else if key == "text_tool"@ {
            Some("Text"@)
        } else if key == "selection_tool"@ {
            Some("Selection"@)
        } else {
            None
        },
        Language::Chinese => if key == "app_title"@ {
            Some("墨司"@)
        } else if key == "canvas_placeholder"@ {
            Some("画布将在此处实现"@)
        } else if key == "properties"@ {
            Some("属性"@)
        } else if key == "tool_properties"@ {
            Some("工具属性将在此处显示"@)
        } else if key == "brush_tool"@ {
            Some("画笔"@)
        } else if key == "shape_tool"@ {
            Some("形状"@)
        } else if key == "arrow_tool"@ {
            Some("箭头"@)
        } else if key == "eraser_tool"@ {
            Some("橡皮擦"@)
        } else if key == "text_tool"@ {
            Some("文本"@)
        } else if key == "selection_tool"@ {
            Some("选择"@)
        } else {
            None
        },
    }
}

fn is(key: &String, lit: &str) -> (r: bool)
    ensures
        r == (key@ == lit@),
{
    *key == lit.to_owned()
}

/// The text for `key` in `lang`; a key without a translation stands for itself.
pub fn translate(lang: Language, key: &str) -> (r: String)
    ensures
        r@ == (match translation(lang, key@) {
            Some(t) => t,
            None => key@,
        }),
{
    let k = key.to_owned();
    let english = match lang {
        Language::English => true,
        Language::Chinese => false,
    };
    let found: &str = if is(&k, "app_title") {
        if english { "Mosp" } else { "墨司" }
    } else if is(&k, "canvas_placeholder") {
        if english { "Canvas will be implemented here" } else { "画布将在此处实现" }
    } else if is(&k, "properties") {
        if english { "Properties" } else { "属性" }
    } else if is(&k, "tool_properties") {
        if english { "Tool properties will be shown here" } else { "工具属性将在此处显示" }
    } else if is(&k, "brush_tool") {
        if english { "Brush" } else { "画笔" }
    } else if is(&k, "shape_tool") {
        if english { "Shape" } else { "形状" }
    } else if is(&k, "arrow_tool") {
        if english { "Arrow" } else { "箭头" }
    } else if is(&k, "eraser_tool") {
        if english { "Eraser" } else { "橡皮擦" }
    } else if is(&k, "text_tool") {
        if english { "Text" } else { "文本" }
    } else if is(&k, "selection_tool") {
        if english { "Selection" } else { "选择" }
    } else {
        key
    };
    found.to_owned()
}

/// The text for `key` in the interface language.
pub fn get_text(key: &str) -> (r: String)
    ensures
        r@ == (match translation(CURRENT_LANGUAGE, key@) {
            Some(t) => t,
            None => key@,
        }),
{
    translate(CURRENT_LANGUAGE, key)
}

} // verus!
