use mosp::canvas::{Canvas, Layer, RenderContext, Viewport};
use mosp::element::{Arrow, ArrowStyle, CanvasElement, Rgba, Shape, ShapeType};
use mosp::error::Error;
use mosp::geometry::{isqrt, Point, Rect, Transform, UNIT};
use mosp::i18n::{get_text, translate, Language};
use mosp::platform::{get_supported_formats, has_pressure_sensitivity, has_tilt_support, TargetOs};

fn three_layers() -> Canvas {
    let mut c = Canvas::new("c".to_string(), "C".to_string(), 100, 100);
    for id in ["L1", "L2", "L3"] {
        c.add_layer(Layer::new(id.to_string(), id.to_string())).unwrap();
    }
    c
}

#[test]
fn rect_holds_its_corners_and_meets_itself() {
    let r = Rect::new(-5, 3, 10, 0);
    assert!(r.contains(Point::new(-5, 3)));
    assert!(r.contains(Point::new(5, 3)));
    assert!(!r.contains(Point::new(6, 3)));
    assert!(r.intersects(&r));
    assert!(r.intersects(&Rect::new(5, 3, 1, 1)));
    assert!(!r.intersects(&Rect::new(6, 3, 1, 1)));
}

#[test]
fn inverse_undoes_transform() {
    let t = Transform { a: 2, b: 1, c: -1, d: 3, e: 7, f: -4, s: 1 };
    let inv = t.inverse().unwrap();
    let p = Point::new(123, -456);
    let q = t.apply(&p);
    assert_eq!(q, Point::new(2 * 123 + 456 + 7, 123 - 3 * 456 - 4));
    assert_eq!(inv.apply(&q), p);
    let half = Transform::scale(500, 500);
    let back = half.inverse().unwrap();
    assert_eq!(back.apply(&half.apply(&Point::new(4000, -2000))), Point::new(4000, -2000));
}

#[test]
fn degenerate_transform_has_no_inverse() {
    let t = Transform { a: 1, b: 2, c: 2, d: 4, e: 0, f: 0, s: 1 };
    assert!(t.inverse().is_none());
    // determinant 1 / 1000^2 is exactly one millionth: still invertible
    assert!(Transform { a: 1, b: 0, c: 0, d: 1, e: 0, f: 0, s: 1000 }.inverse().is_some());
    assert!(Transform { a: 1, b: 0, c: 0, d: 1, e: 0, f: 0, s: 1001 }.inverse().is_none());
}

#[test]
fn compose_applies_self_first() {
    let shift = Transform::translate(10, 0);
    let double = Transform::scale(2000, 2000);
    let p = Point::new(1, 1);
    let c = shift.compose(&double);
    assert_eq!(c.apply(&p), double.apply(&shift.apply(&p)));
    assert_eq!(c.apply(&p), Point::new(22, 2));
}

#[test]
fn distance_rounds_down() {
    assert_eq!(Point::new(0, 0).distance_to(&Point::new(3, 4)), 5);
    assert_eq!(Point::new(0, 0).distance_to(&Point::new(1, 1)), 1);
    assert_eq!(isqrt(u64::MAX), 4_294_967_295);
}

#[test]
fn zoom_keeps_focus_in_place() {
    let mut v = Viewport::new();
    let k = Point::new(30 * UNIT, -10 * UNIT);
    let before = (k.x - v.center_x) * v.zoom;
    let ev = v.zoom(2000, Some(k));
    assert_eq!(v.zoom, 2000);
    assert_eq!((k.x - v.center_x) * v.zoom, before);
    assert_eq!(ev.scale, 2000);
    assert_eq!((ev.x, ev.y), (15 * UNIT, -5 * UNIT));
    // clamped to ten
    v.zoom(100_000, None);
    assert_eq!(v.zoom, 10_000);
    assert_eq!((v.center_x, v.center_y), (15 * UNIT, -5 * UNIT));
    v.zoom(1, None);
    assert_eq!(v.zoom, 100);
}

#[test]
fn duplicate_layer_id_is_rejected() {
    let mut c = Canvas::new("c".to_string(), "C".to_string(), 100, 100);
    c.add_layer(Layer::new("L1".to_string(), "first".to_string())).unwrap();
    let r = c.add_layer(Layer::new("L1".to_string(), "second".to_string()));
    assert!(matches!(r, Err(Error::DuplicateLayer(id)) if id == "L1"));
    assert_eq!(c.layer_count(), 1);
    assert_eq!(c.get_layer("L1").unwrap().name(), "first");
}

#[test]
fn removing_a_layer_reindexes() {
    let mut c = three_layers();
    let removed = c.remove_layer("L2").unwrap();
    assert_eq!(removed.id(), "L2");
    assert_eq!(c.layer_index("L1"), Some(0));
    assert_eq!(c.layer_index("L3"), Some(1));
    assert_eq!(c.layer_index("L2"), None);
    assert_eq!(c.layer_count(), 2);
    assert!(matches!(c.remove_layer("L2"), Err(Error::LayerNotFound(id)) if id == "L2"));
}

#[test]
fn active_layer_defaults_and_falls_back() {
    let mut c = three_layers();
    assert_eq!(c.active_layer().unwrap().id(), "L1");
    c.set_active_layer("L3").unwrap();
    assert_eq!(c.active_layer().unwrap().id(), "L3");
    assert!(matches!(c.set_active_layer("nope"), Err(Error::LayerNotFound(_))));
    c.remove_layer("L3").unwrap();
    assert_eq!(c.active_layer().unwrap().id(), "L1");
    let empty = Canvas::new("e".to_string(), "E".to_string(), 1, 1);
    assert!(empty.active_layer().is_none());
}

fn arrow(id: &str) -> CanvasElement {
    CanvasElement::Arrow(Arrow {
        id: id.to_string(),
        start: Point::new(0, 0),
        end: Point::new(10 * UNIT, 0),
        color: Rgba { r: 0, g: 0, b: 0, a: 255 },
        stroke_width: 2 * UNIT as u32,
        arrow_style: ArrowStyle::Simple,
        head_size: 3 * UNIT as u32,
    })
}

#[test]
fn render_walks_visible_layers_in_order() {
    let mut c = three_layers();
    c.add_element(arrow("a")).unwrap();
    c.set_active_layer("L3").unwrap();
    c.add_element(arrow("b")).unwrap();
    c.add_element(arrow("c")).unwrap();
    c.set_active_layer("L2").unwrap();
    c.add_element(arrow("hidden")).unwrap();
    let mut ctx = RenderContext::new();
    c.render(&mut ctx);
    assert_eq!(ctx.drawn, vec!["a", "hidden", "b", "c"]);
    let mut hidden = Layer::new("h".to_string(), "h".to_string());
    hidden.add_element(arrow("x"));
    hidden.set_visible(false);
    let mut ctx2 = RenderContext::new();
    hidden.render(&mut ctx2);
    assert!(ctx2.drawn.is_empty());
}

#[test]
fn add_element_without_layer_fails() {
    let mut c = Canvas::new("e".to_string(), "E".to_string(), 1, 1);
    assert!(matches!(c.add_element(arrow("a")), Err(Error::NoActiveLayer)));
}

#[test]
fn hit_tests_use_stroke_width() {
    let a = arrow("a");
    assert!(a.contains(Point::new(5 * UNIT, UNIT)));
    assert!(!a.contains(Point::new(5 * UNIT, UNIT + 1)));
    // within the head size of the tip
    assert!(a.contains(Point::new(10 * UNIT, 3 * UNIT)));
    let b = a.bounds();
    assert_eq!((b.x, b.y, b.width, b.height), (-3000, -3000, 16_000, 6000));
    let line = CanvasElement::Shape(Shape {
        id: "l".to_string(),
        shape_type: ShapeType::Line,
        start: Point::new(0, 0),
        end: Point::new(0, 0),
        color: Rgba { r: 0, g: 0, b: 0, a: 255 },
        fill_color: None,
        stroke_width: 2000,
    });
    assert!(line.contains(Point::new(1000, 0)));
    assert!(!line.contains(Point::new(1000, 1)));
    assert_eq!(line.element_type(), "line");
    let circle = CanvasElement::Shape(Shape {
        id: "c".to_string(),
        shape_type: ShapeType::Circle,
        start: Point::new(0, 0),
        end: Point::new(10, 4),
        color: Rgba { r: 0, g: 0, b: 0, a: 255 },
        fill_color: None,
        stroke_width: 1,
    });
    assert!(circle.contains(Point::new(10, 2)));
    assert!(!circle.contains(Point::new(11, 2)));
}

#[test]
fn layer_opacity_is_clamped() {
    let mut l = Layer::new("l".to_string(), "l".to_string());
    l.set_opacity(1500);
    assert_eq!(l.opacity(), 1000);
    l.set_opacity(250);
    assert_eq!(l.opacity(), 250);
}

#[test]
fn translations_and_platform_tables() {
    assert_eq!(get_text("app_title"), "墨司");
    assert_eq!(translate(Language::English, "brush_tool"), "Brush");
    assert_eq!(get_text("missing_key"), "missing_key");
    assert_eq!(get_supported_formats(), vec!["mosp", "png", "jpg", "svg"]);
    assert!(has_pressure_sensitivity(TargetOs::Windows));
    assert!(!has_pressure_sensitivity(TargetOs::Linux));
    assert!(has_tilt_support(TargetOs::Ios));
    assert!(!has_tilt_support(TargetOs::Windows));
}

#[test]
fn hiding_a_layer_and_removing_elements() {
    let mut c = three_layers();
    c.add_element(arrow("a")).unwrap();
    c.add_element(arrow("b")).unwrap();
    c.set_layer_visible("L1", false).unwrap();
    let mut ctx = RenderContext::new();
    c.render(&mut ctx);
    assert!(ctx.drawn.is_empty());
    assert!(matches!(c.set_layer_visible("L9", true), Err(Error::LayerNotFound(_))));
    let mut l = Layer::new("x".to_string(), "x".to_string());
    l.add_element(arrow("p"));
    l.add_element(arrow("q"));
    assert_eq!(l.remove_element(0).unwrap().id(), "p");
    assert!(l.remove_element(1).is_none());
    assert_eq!(l.elements().len(), 1);
    assert_eq!(l.elements()[0].id(), "q");
}

fn shape(kind: ShapeType, start: Point, end: Point, stroke_width: u32) -> CanvasElement {
    CanvasElement::Shape(Shape {
        id: "s".to_string(),
        shape_type: kind,
        start,
        end,
        color: Rgba { r: 0, g: 0, b: 0, a: 255 },
        fill_color: None,
        stroke_width,
    })
}

#[test]
fn zero_length_shapes_hit_as_discs() {
    for kind in [ShapeType::Rectangle, ShapeType::Circle, ShapeType::Line] {
        let s = shape(kind, Point::new(0, 0), Point::new(0, 0), 2 * UNIT as u32);
        assert!(s.contains(Point::new(1, 0)));
        assert!(s.contains(Point::new(0, 1000)));
        assert!(!s.contains(Point::new(800, 800)));
        let b = s.bounds();
        assert_eq!((b.x, b.y, b.width, b.height), (-1000, -1000, 2000, 2000));
    }
}

#[test]
fn rectangle_hits_within_half_its_stroke() {
    let s = shape(ShapeType::Rectangle, Point::new(0, 0), Point::new(10_000, 4000), 2000);
    assert!(s.contains(Point::new(5000, 2000)));
    assert!(s.contains(Point::new(11_000, 4000)));
    assert!(!s.contains(Point::new(11_001, 4000)));
    assert!(!s.contains(Point::new(10_800, 4800)));
}

#[test]
fn circle_bounds_hold_the_circle() {
    let s = shape(ShapeType::Circle, Point::new(0, 0), Point::new(100, 0), 2);
    assert!(s.contains(Point::new(50, 40)));
    let b = s.bounds();
    assert_eq!((b.x, b.y, b.width, b.height), (-1, -51, 102, 102));
    assert!(b.contains(Point::new(50, 40)));
}

#[test]
fn layer_setters_reach_held_layers() {
    let mut c = three_layers();
    c.set_active_layer("L2").unwrap();
    c.add_element(arrow("a")).unwrap();
    c.add_element(arrow("b")).unwrap();
    c.set_layer_name("L2", "Second".to_string()).unwrap();
    c.set_layer_locked("L2", true).unwrap();
    c.set_layer_opacity("L2", 2000).unwrap();
    let l = c.get_layer("L2").unwrap();
    assert_eq!((l.name(), l.is_locked(), l.opacity(), l.id()), ("Second", true, 1000, "L2"));
    assert_eq!(c.remove_layer_element("L2", 0).unwrap().unwrap().id(), "a");
    assert!(c.remove_layer_element("L2", 5).unwrap().is_none());
    assert_eq!(c.get_layer("L2").unwrap().elements().len(), 1);
    assert!(matches!(c.set_layer_name("L9", "x".to_string()), Err(Error::LayerNotFound(_))));
}

#[test]
fn composed_scales_stay_invertible() {
    let half = Transform::scale(500, 500);
    let twice = half.compose(&half);
    assert_eq!(twice.s, 1_000_000);
    let inv = twice.inverse().unwrap();
    let p = Point::new(8000, -4000);
    assert_eq!(twice.apply(&p), Point::new(2000, -1000));
    assert_eq!(inv.apply(&twice.apply(&p)), p);
    let again = twice.compose(&half);
    assert_eq!(again.apply(&p), Point::new(1000, -500));
}

#[test]
fn round_trip_stays_within_a_step() {
    let t = Transform { a: 1, b: 0, c: 0, d: 1, e: 0, f: 0, s: 3 };
    let inv = t.inverse().unwrap();
    let p = Point::new(7, -7);
    let back = inv.apply(&t.apply(&p));
    assert!((back.x - p.x).abs() <= 3 && (back.y - p.y).abs() <= 3);
    assert_eq!(back, Point::new(6, -9));
}

#[test]
fn zoom_about_focus_keeps_focus() {
    let k = Point::new(3000, -7000);
    let z = Transform::translate(-k.x, -k.y)
        .compose(&Transform::scale(2500, 2500))
        .compose(&Transform::translate(k.x, k.y));
    assert_eq!(z.apply(&k), k);
    assert_eq!(z.apply(&Point::new(4000, -7000)), Point::new(5500, -7000));
}
