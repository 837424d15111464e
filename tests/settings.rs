use mosp::brush::BrushSettings;
use mosp::element::{color_from_channels, ArrowStyle, Rgba, ShapeType, TextAlignment};
use mosp::manager::{ToolManager, ToolSettings};
use mosp::shape::ShapeSettings;
use mosp::tool::{SelectionMode, ToolType};

#[test]
fn colour_channels_keep_low_byte_and_default_alpha() {
    let c = color_from_channels(&vec![Some(1), Some(258), None, None]).unwrap();
    assert_eq!(c, Rgba { r: 1, g: 2, b: 0, a: 255 });
    assert!(color_from_channels(&vec![Some(1), Some(2), Some(3)]).is_none());
}

#[test]
fn codes_map_both_ways() {
    assert_eq!(ShapeType::from_code(1), Some(ShapeType::Circle));
    assert_eq!(ShapeType::from_code(3), None);
    assert_eq!(ShapeType::Line.code(), 2);
    assert_eq!(ArrowStyle::from_code(2), Some(ArrowStyle::Double));
    assert_eq!(TextAlignment::from_code(0), Some(TextAlignment::Left));
    assert_eq!(SelectionMode::from_name("lasso"), SelectionMode::Lasso);
    assert_eq!(SelectionMode::from_name("anything"), SelectionMode::Rectangle);
    assert_eq!(SelectionMode::Lasso.name(), "lasso");
}

#[test]
fn missing_settings_keep_prior_values() {
    let mut m = ToolManager::new();
    m.set_tool_config(ToolSettings::Brush(BrushSettings { color: None, width: Some(9000), pressure_sensitivity: None }));
    assert_eq!(m.brush.width, 9000);
    assert_eq!(m.brush.color, Rgba { r: 0, g: 0, b: 0, a: 255 });
    assert!(m.brush.pressure_sensitivity);
    // settings of an inactive tool can be changed too
    m.set_tool_config(ToolSettings::Shape(ShapeSettings {
        shape_type: Some(ShapeType::Circle),
        color: None,
        fill_color: Some(Some(Rgba { r: 9, g: 9, b: 9, a: 9 })),
        stroke_width: None,
    }));
    assert_eq!(m.shape.shape_type, ShapeType::Circle);
    assert_eq!(m.shape.fill_color, Some(Rgba { r: 9, g: 9, b: 9, a: 9 }));
    assert_eq!(m.shape.stroke_width, 2000);
    assert_eq!(m.get_active_tool(), ToolType::Brush);
    match m.get_tool_config(ToolType::Brush) {
        ToolSettings::Brush(s) => assert_eq!(s.width, Some(9000)),
        _ => panic!("wrong kind"),
    }
}
