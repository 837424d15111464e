use mosp::brush::BrushTool;
use mosp::canvas::{Canvas, Layer};
use mosp::element::{CanvasElement, ShapeType};
use mosp::eraser::EraserTool;
use mosp::error::Error;
use mosp::geometry::{Point, UNIT};
use mosp::manager::ToolManager;
use mosp::selection::SelectionTool;
use mosp::shape::{ArrowTool, ShapeTool};
use mosp::text::TextTool;
use mosp::tool::{PropertyValue, SelectionMode, ToolEvent, ToolType};

fn create_test_canvas() -> Canvas {
    let mut canvas = Canvas::new("test".to_string(), "Test Canvas".to_string(), 800, 600);
    let layer = Layer::new("layer1".to_string(), "Layer 1".to_string());
    canvas.add_layer(layer).unwrap();
    canvas.set_active_layer("layer1").unwrap();
    canvas
}

fn pt(x: i64, y: i64) -> Point {
    Point::new(x * UNIT, y * UNIT)
}

fn down(x: i64, y: i64) -> ToolEvent {
    ToolEvent::Down { position: pt(x, y), pressure: 1000 }
}

fn moved(x: i64, y: i64) -> ToolEvent {
    ToolEvent::Move { position: pt(x, y), pressure: 1000 }
}

fn up(x: i64, y: i64) -> ToolEvent {
    ToolEvent::Up { position: pt(x, y) }
}

#[test]
fn test_brush_tool() {
    let _canvas = create_test_canvas();
    let mut brush = BrushTool::new();

    assert_eq!(brush.tool_type(), ToolType::Brush);
    assert!(brush.create_element().is_none());

    brush.handle_event(down(100, 100)).unwrap();
    brush.handle_event(moved(150, 150)).unwrap();
    brush.handle_event(up(200, 200)).unwrap();

    let element = brush.create_element();
    assert!(element.is_some());

    brush.reset();
    assert!(brush.create_element().is_none());
}

#[test]
fn test_shape_tool() {
    let _canvas = create_test_canvas();
    let mut shape = ShapeTool::new(ShapeType::Rectangle);

    assert_eq!(shape.tool_type(), ToolType::Shape);
    assert!(shape.create_element().is_none());

    shape.handle_event(down(100, 100)).unwrap();
    shape.handle_event(moved(200, 150)).unwrap();
    shape.handle_event(up(200, 150)).unwrap();

    let element = shape.create_element();
    assert!(element.is_some());

    shape.reset();
    assert!(shape.create_element().is_none());
}

#[test]
fn test_arrow_tool() {
    let _canvas = create_test_canvas();
    let mut arrow = ArrowTool::new();

    assert_eq!(arrow.tool_type(), ToolType::Arrow);
    assert!(arrow.create_element().is_none());

    arrow.handle_event(down(100, 100)).unwrap();
    arrow.handle_event(moved(200, 200)).unwrap();
    arrow.handle_event(up(200, 200)).unwrap();

    let element = arrow.create_element();
    assert!(element.is_some());

    arrow.reset();
    assert!(arrow.create_element().is_none());
}

#[test]
fn test_eraser_tool() {
    let _canvas = create_test_canvas();
    let mut eraser = EraserTool::new();

    assert_eq!(eraser.tool_type(), ToolType::Eraser);
    assert!(eraser.create_element().is_none());

    eraser.handle_event(down(100, 100)).unwrap();
    eraser.handle_event(moved(150, 150)).unwrap();
    eraser.handle_event(up(200, 200)).unwrap();

    assert!(eraser.create_element().is_none());

    eraser.reset();
    assert!(eraser.create_element().is_none());
}

#[test]
fn test_text_tool() {
    let _canvas = create_test_canvas();
    let mut text = TextTool::new();

    assert_eq!(text.tool_type(), ToolType::Text);
    assert!(text.create_element().is_none());

    text.handle_event(down(100, 100)).unwrap();

    let element = text.create_element();
    assert!(element.is_some());

    text.reset();
    assert!(text.create_element().is_none());
}

#[test]
fn test_selection_tool() {
    let _canvas = create_test_canvas();
    let mut selection = SelectionTool::new();

    assert_eq!(selection.tool_type(), ToolType::Selection);
    assert!(selection.create_element().is_none());

    selection.handle_event(down(100, 100)).unwrap();
    selection.handle_event(moved(200, 200)).unwrap();
    selection.handle_event(up(200, 200)).unwrap();

    assert!(selection.create_element().is_none());

    selection.reset();
    assert!(selection.create_element().is_none());
}

#[test]
fn brush_single_point_gesture_has_positive_bounds() {
    let mut brush = BrushTool::new();
    brush.handle_event(ToolEvent::Down { position: Point::new(0, 0), pressure: 1000 }).unwrap();
    brush.handle_event(ToolEvent::Up { position: Point::new(0, 0) }).unwrap();
    let element = brush.create_element().expect("a stroke");
    match &element {
        CanvasElement::BrushStroke(s) => {
            assert_eq!(s.points.len(), 2);
            assert_eq!(s.points[1].position, Point::new(100, 0));
        }
        _ => panic!("not a brush stroke"),
    }
    let b = element.bounds();
    assert!(b.width > 0);
    assert!(b.height > 0);
    // width 2 units: padding 1 unit on each side
    assert_eq!((b.x, b.y, b.width, b.height), (-1000, -1000, 2100, 2000));
    assert_eq!(element.element_type(), "brush_stroke");
    assert_eq!(element.id().len(), 36);
}

#[test]
fn eraser_interpolates_fast_strokes() {
    let mut eraser = EraserTool::new();
    assert_eq!(eraser.size, 20 * UNIT as u32);
    eraser.handle_event(down(0, 0)).unwrap();
    eraser.handle_event(moved(40, 0)).unwrap();
    // ceil(40 / (20 / 4)) = 8 steps: 7 points between the samples, then the sample
    assert_eq!(eraser.erased.len(), 1 + 7 + 1);
    assert!(eraser.erased.len() >= 3);
    assert_eq!(eraser.erased[1], pt(5, 0));
    assert_eq!(eraser.erased[7], pt(35, 0));
    assert_eq!(eraser.erased[8], pt(40, 0));
    // a slow move adds only the sample
    eraser.handle_event(moved(42, 0)).unwrap();
    assert_eq!(eraser.erased.len(), 10);
    eraser.handle_event(up(42, 0)).unwrap();
    assert!(!eraser.is_erasing);
}

#[test]
fn switching_tools_keeps_brush_width() {
    let mut manager = ToolManager::new();
    manager.brush.set_width(5 * UNIT as u32);
    manager.set_active_tool(ToolType::Shape);
    manager.set_active_tool(ToolType::Brush);
    assert_eq!(manager.brush.width, 5000);
    assert_eq!(manager.get_active_tool(), ToolType::Brush);
}

#[test]
fn manager_commits_on_up() {
    let mut canvas = create_test_canvas();
    let mut manager = ToolManager::new();
    manager.handle_event(down(1, 1), &mut canvas).unwrap();
    manager.handle_event(moved(2, 2), &mut canvas).unwrap();
    assert_eq!(canvas.get_layer("layer1").unwrap().elements().len(), 0);
    manager.handle_event(up(3, 3), &mut canvas).unwrap();
    assert_eq!(canvas.get_layer("layer1").unwrap().elements().len(), 1);
    assert!(manager.brush.current_stroke.is_none());
}

#[test]
fn manager_without_layer_reports_no_active_layer() {
    let mut canvas = Canvas::new("c".to_string(), "C".to_string(), 10, 10);
    let mut manager = ToolManager::new();
    manager.set_active_tool(ToolType::Arrow);
    manager.handle_event(down(1, 1), &mut canvas).unwrap();
    assert!(matches!(manager.handle_event(up(3, 3), &mut canvas), Err(Error::NoActiveLayer)));
}

#[test]
fn unknown_property_is_rejected() {
    let mut brush = BrushTool::new();
    let r = brush.handle_event(ToolEvent::PropertyChanged {
        name: "opacity".to_string(),
        value: PropertyValue::Size(3),
    });
    assert!(matches!(r, Err(Error::UnknownProperty(n)) if n == "opacity"));
    brush
        .handle_event(ToolEvent::PropertyChanged { name: "width".to_string(), value: PropertyValue::Size(7000) })
        .unwrap();
    assert_eq!(brush.width, 7000);
    // a value of the wrong kind leaves the setting alone
    brush
        .handle_event(ToolEvent::PropertyChanged { name: "width".to_string(), value: PropertyValue::Flag(true) })
        .unwrap();
    assert_eq!(brush.width, 7000);
}

#[test]
fn selection_lasso_closes_on_first_point() {
    let mut selection = SelectionTool::new();
    selection.set_mode(SelectionMode::Lasso);
    selection.handle_event(down(0, 0)).unwrap();
    selection.handle_event(moved(10, 0)).unwrap();
    selection.handle_event(up(10, 10)).unwrap();
    assert_eq!(selection.lasso_points, vec![pt(0, 0), pt(10, 0), pt(10, 10), pt(0, 0)]);
}

#[test]
fn text_tool_clamps_font_size() {
    let mut text = TextTool::new();
    text.handle_event(ToolEvent::PropertyChanged { name: "font_size".to_string(), value: PropertyValue::Size(100_000) })
        .unwrap();
    assert_eq!(text.style.font_size, 72_000);
    text.handle_event(down(0, 0)).unwrap();
    let e = text.create_element().unwrap();
    // line height is six fifths of the font size
    assert_eq!(e.bounds().height, 86_400);
    assert_eq!(e.bounds().width, 200_000);
}
