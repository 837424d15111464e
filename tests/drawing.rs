use mosp::drawing_engine::{DrawingEngine, Tool};
use mosp::element::Rgba;
use mosp::geometry::Point;

#[test]
fn tool_names_fall_back_to_pencil() {
    assert_eq!(Tool::from("ellipse".to_string()), Tool::Ellipse);
    assert_eq!(Tool::from("eraser".to_string()), Tool::Eraser);
    assert_eq!(Tool::from("crayon".to_string()), Tool::Pencil);
}

#[test]
fn strokes_are_recorded_when_ended() {
    let mut engine = DrawingEngine::new();
    engine.continue_stroke(5, 5);
    assert!(engine.current_stroke.is_none());
    engine.set_tool(Tool::Line);
    engine.set_color(255, 0, 0, 255);
    engine.set_brush_size(4000);
    engine.begin_stroke(0, 0);
    engine.continue_stroke(10, 10);
    assert!(engine.strokes.is_empty());
    engine.end_stroke();
    assert!(engine.current_stroke.is_none());
    assert_eq!(engine.strokes.len(), 1);
    let s = &engine.strokes[0];
    assert_eq!(s.tool, Tool::Line);
    assert_eq!(s.color, Rgba { r: 255, g: 0, b: 0, a: 255 });
    assert_eq!(s.size, 4000);
    assert_eq!(s.points.len(), 2);
    assert_eq!(s.points[1].position, Point::new(10, 10));
    engine.end_stroke();
    assert_eq!(engine.strokes.len(), 1);
}
