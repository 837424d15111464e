//! Canvas elements: brush strokes, shapes, arrows and text blocks, with
//! exact hit tests and bounding rectangles.

use vstd::prelude::*;
use crate::geometry::{coord_ok, dist2, floor_div, Point, Rect};

verus! {

/// A colour as red, green, blue and alpha channels.
#[derive(Clone, Copy, Debug, PartialEq, Eq, Structural)]
pub struct Rgba {
    pub r: u8,
    pub g: u8,
    pub b: u8,
    pub a: u8,
}

/// A sample of a stroke: where it was, and the pressure in thousandths.
#[derive(Clone, Copy, Debug, PartialEq, Eq, Structural)]
pub struct StrokePoint {
    pub position: Point,
    pub pressure: u32,
}

#[derive(Clone, Copy, Debug, PartialEq, Eq, Structural)]
pub enum ShapeType {
    Rectangle,
    Circle,
    Line,
}

#[derive(Clone, Copy, Debug, PartialEq, Eq, Structural)]
pub enum ArrowStyle {
    Simple,
    Filled,
    Double,
}

#[derive(Clone, Copy, Debug, PartialEq, Eq, Structural)]
pub enum TextAlignment {
    Left,
    Center,
    Right,
}

impl ShapeType {
    /// The shape with this code: 0 rectangle, 1 circle, 2 line.
    pub fn from_code(code: u64) -> (r: Option<ShapeType>)
        ensures
            r == (if code == 0 {
                Some(ShapeType::Rectangle)
            } else if code == 1 {
                Some(ShapeType::Circle)
            } else if code == 2 {
                Some(ShapeType::Line)
            } else {
                None
            }),
    {
        if code == 0 {
            Some(ShapeType::Rectangle)
        } else if code == 1 {
            Some(ShapeType::Circle)
        } else if code == 2 {
            Some(ShapeType::Line)
        } else {
            None
        }
    }

    /// The code that `from_code` maps back to this shape.
    pub fn code(&self) -> (r: u64)
        ensures
            ShapeType::from_code_spec(r) == Some(*self),
    {
        match self {
            ShapeType::Rectangle => 0,
            ShapeType::Circle => 1,
            ShapeType::Line => 2,
        }
    }

    pub open spec fn from_code_spec(code: u64) -> Option<ShapeType> {
        if code == 0 {
            Some(ShapeType::Rectangle)
        } else if code == 1 {
            Some(ShapeType::Circle)
        } else if code == 2 {
            Some(ShapeType::Line)
        } else {
            None
        }
    }
}

impl ArrowStyle {
    pub open spec fn from_code_spec(code: u64) -> Option<ArrowStyle> {
        if code == 0 {
            Some(ArrowStyle::Simple)
        } else if code == 1 {
            Some(ArrowStyle::Filled)
        } else if code == 2 {
            Some(ArrowStyle::Double)
        } else {
            None
        }
    }

    /// The style with this code: 0 simple, 1 filled, 2 double.
    pub fn from_code(code: u64) -> (r: Option<ArrowStyle>)
        ensures
            r == ArrowStyle::from_code_spec(code),
    {
        if code == 0 {
            Some(ArrowStyle::Simple)
        } else if code == 1 {
            Some(ArrowStyle::Filled)
        } else if code == 2 {
            Some(ArrowStyle::Double)
        } else {
            None
        }
    }

    pub fn code(&self) -> (r: u64)
        ensures
            ArrowStyle::from_code_spec(r) == Some(*self),
    {
        match self {
            ArrowStyle::Simple => 0,
            ArrowStyle::Filled => 1,
            ArrowStyle::Double => 2,
        }
    }
}

impl TextAlignment {
    pub open spec fn from_code_spec(code: u64) -> Option<TextAlignment> {
        if code == 0 {
            Some(TextAlignment::Left)
        } else if code == 1 {
            Some(TextAlignment::Center)
        } else if code == 2 {
            Some(TextAlignment::Right)
        } else {
            None
        }
    }

    /// The alignment with this code: 0 left, 1 center, 2 right.
    pub fn from_code(code: u64) -> (r: Option<TextAlignment>)
        ensures
            r == TextAlignment::from_code_spec(code),
    {
        if code == 0 {
            Some(TextAlignment::Left)
        } else if code == 1 {
            Some(TextAlignment::Center)
        } else if code == 2 {
            Some(TextAlignment::Right)
        } else {
            None
        }
    }

    pub fn code(&self) -> (r: u64)
        ensures
            TextAlignment::from_code_spec(r) == Some(*self),
    {
        match self {
            TextAlignment::Left => 0,
            TextAlignment::Center => 1,
            TextAlignment::Right => 2,
        }
    }
}

/// The low eight bits of a channel value; an absent value counts as `default`.
pub open spec fn channel(v: Option<u64>, default: u8) -> u8 {
    match v {
        Some(n) => (n % 256) as u8,
        None => default,
    }
}

/// A colour read from a list of four channel values (red, green, blue,
/// alpha); a value that is not a number counts as 0, or 255 for alpha. A
/// list of any other length gives no colour.
pub fn color_from_channels(channels: &Vec<Option<u64>>) -> (r: Option<Rgba>)
    ensures
        channels@.len() == 4 ==> r == Some(Rgba {
            r: channel(channels@[0], 0),
            g: channel(channels@[1], 0),
            b: channel(channels@[2], 0),
            a: channel(channels@[3], 255),
        }),
        channels@.len() != 4 ==> r is None,
{
    if channels.len() != 4 {
        return None;
    }
    Some(Rgba {
        r: low_byte(channels[0], 0),
        g: low_byte(channels[1], 0),
        b: low_byte(channels[2], 0),
        a: low_byte(channels[3], 255),
    })
}

fn low_byte(v: Option<u64>, default: u8) -> (r: u8)
    ensures
        r == channel(v, default),
{
    match v {
        Some(n) => (n % 256) as u8,
        None => default,
    }
}

/// Half of `w`, rounded up, so that padding by it covers the whole stroke.
pub open spec fn half_up(w: int) -> int {
    (w + 1) / 2
}

/// `p` lies within distance `w / 2` of the closed segment from `a` to `b`
/// (of the point `a` when the segment has length zero).
pub open spec fn near_segment(p: Point, a: Point, b: Point, w: int) -> bool {
    let l = dist2(a, b);
    let dot = (p.x - a.x) * (b.x - a.x) + (p.y - a.y) * (b.y - a.y);
    let cross = (p.x - a.x) * (b.y - a.y) - (p.y - a.y) * (b.x - a.x);
    if l == 0 || dot <= 0 {
        4 * dist2(p, a) <= w * w
    } else if dot >= l {
        4 * dist2(p, b) <= w * w
    } else {
        4 * (cross * cross) <= w * w * l
    }
}

proof fn lemma_small_product(u: int, v: int)
    requires
        -0x4000_0000 <= u <= 0x4000_0000,
        -0x4000_0000 <= v <= 0x4000_0000,
    ensures
        -0x1000_0000_0000_0000 <= u * v <= 0x1000_0000_0000_0000,
{
    assert(-0x1000_0000_0000_0000 <= u * v <= 0x1000_0000_0000_0000) by (nonlinear_arith)
        requires
            -0x4000_0000 <= u <= 0x4000_0000,
            -0x4000_0000 <= v <= 0x4000_0000,
    ;
}

/// Decides `near_segment` for points of the supported range.
pub fn near_segment_exec(p: Point, a: Point, b: Point, w: u32) -> (r: bool)
    requires
        p.wf(),
        a.wf(),
        b.wf(),
    ensures
        r == near_segment(p, a, b, w as int),
{
    let (px, py) = (p.x as i128 - a.x as i128, p.y as i128 - a.y as i128);
    let (bx, by) = (b.x as i128 - a.x as i128, b.y as i128 - a.y as i128);
    let (qx, qy) = (p.x as i128 - b.x as i128, p.y as i128 - b.y as i128);
    proof {
        lemma_small_product(px as int, bx as int);
        lemma_small_product(py as int, by as int);
        lemma_small_product(px as int, by as int);
        lemma_small_product(py as int, bx as int);
        lemma_small_product(px as int, px as int);
        lemma_small_product(py as int, py as int);
        lemma_small_product(bx as int, bx as int);
        lemma_small_product(by as int, by as int);
        lemma_small_product(qx as int, qx as int);
        lemma_small_product(qy as int, qy as int);
    }
    let l = bx * bx + by * by;
    assert(l == dist2(a, b)) by (nonlinear_arith)
        requires
            l == bx * bx + by * by,
            bx == b.x - a.x,
            by == b.y - a.y,
    ;
    let dot = px * bx + py * by;
    let cross = px * by - py * bx;
    assert(0 <= (w as int) * (w as int) <= 0x1_0000_0000_0000_0000) by (nonlinear_arith)
        requires
            0 <= w <= 0xffff_ffff,
    ;
    let ww = (w as i128) * (w as i128);
    if l == 0 || dot <= 0 {
        4 * (px * px + py * py) <= ww
    } else if dot >= l {
        4 * (qx * qx + qy * qy) <= ww
    } else {
        assert(0 <= cross * cross <= 0x400_0000_0000_0000_0000_0000_0000_0000) by (nonlinear_arith)
            requires
                -0x2000_0000_0000_0000 <= cross <= 0x2000_0000_0000_0000,
        ;
        assert(0 <= ww * l <= 0x2000_0000_0000_0000_0000_0000_0000_0000) by (nonlinear_arith)
            requires
                0 <= ww <= 0x1_0000_0000_0000_0000,
                0 <= l <= 0x2000_0000_0000_0000,
        ;
        4 * (cross * cross) <= ww * l
    }
}

/// The rectangle spanned by two corners.
pub open spec fn span(p: Point, q: Point) -> Rect {
    let x1 = if p.x <= q.x { p.x } else { q.x };
    let y1 = if p.y <= q.y { p.y } else { q.y };
    let x2 = if p.x <= q.x { q.x } else { p.x };
    let y2 = if p.y <= q.y { q.y } else { p.y };
    Rect { x: x1, y: y1, width: (x2 - x1) as i64, height: (y2 - y1) as i64 }
}

/// `r` grown by `pad` on every side.
pub open spec fn padded(r: Rect, pad: int) -> Rect {
    Rect {
        x: (r.x - pad) as i64,
        y: (r.y - pad) as i64,
        width: (r.width + 2 * pad) as i64,
        height: (r.height + 2 * pad) as i64,
    }
}

fn span_exec(p: Point, q: Point) -> (r: Rect)
    requires
        p.wf(),
        q.wf(),
    ensures
        r == span(p, q),
{
    let x1 = if p.x <= q.x { p.x } else { q.x };
    let y1 = if p.y <= q.y { p.y } else { q.y };
    let x2 = if p.x <= q.x { q.x } else { p.x };
    let y2 = if p.y <= q.y { q.y } else { p.y };
    Rect { x: x1, y: y1, width: x2 - x1, height: y2 - y1 }
}

fn padded_exec(r: Rect, pad: u32) -> (o: Rect)
    requires
        coord_ok(r.x as int),
        coord_ok(r.y as int),
        0 <= r.width <= 2 * 0x2000_0000,
        0 <= r.height <= 2 * 0x2000_0000,
    ensures
        o == padded(r, pad as int),
{
    Rect {
        x: r.x - pad as i64,
        y: r.y - pad as i64,
        width: r.width + 2 * pad as i64,
        height: r.height + 2 * pad as i64,
    }
}

/// A freehand stroke: sampled points with their pressure in thousandths.
#[derive(Clone, Debug)]
pub struct BrushStroke {
    pub id: String,
    pub points: Vec<StrokePoint>,
    pub color: Rgba,
    pub width: u32,
}

/// Smallest x among the first `n` samples.
pub open spec fn min_x(pts: Seq<StrokePoint>, n: nat) -> int
    decreases n,
{
    if n <= 1 {
        pts[0].position.x as int
    } else {
        let m = min_x(pts, (n - 1) as nat);
        if pts[n - 1].position.x < m { pts[n - 1].position.x as int } else { m }
    }
}

/// Smallest y among the first `n` samples.
pub open spec fn min_y(pts: Seq<StrokePoint>, n: nat) -> int
    decreases n,
{
    if n <= 1 {
        pts[0].position.y as int
    } else {
        let m = min_y(pts, (n - 1) as nat);
        if pts[n - 1].position.y < m { pts[n - 1].position.y as int } else { m }
    }
}

/// Largest x among the first `n` samples.
pub open spec fn max_x(pts: Seq<StrokePoint>, n: nat) -> int
    decreases n,
{
    if n <= 1 {
        pts[0].position.x as int
    } else {
        let m = max_x(pts, (n - 1) as nat);
        if pts[n - 1].position.x > m { pts[n - 1].position.x as int } else { m }
    }
}

/// Largest y among the first `n` samples.
pub open spec fn max_y(pts: Seq<StrokePoint>, n: nat) -> int
    decreases n,
{
    if n <= 1 {
        pts[0].position.y as int
    } else {
        let m = max_y(pts, (n - 1) as nat);
        if pts[n - 1].position.y > m { pts[n - 1].position.y as int } else { m }
    }
}

proof fn lemma_extremes_in_range(pts: Seq<StrokePoint>, n: nat)
    requires
        1 <= n <= pts.len(),
        forall|i: int| 0 <= i < pts.len() ==> (#[trigger] pts[i]).position.wf(),
    ensures
        coord_ok(min_x(pts, n)),
        coord_ok(min_y(pts, n)),
        coord_ok(max_x(pts, n)),
        coord_ok(max_y(pts, n)),
        min_x(pts, n) <= max_x(pts, n),
        min_y(pts, n) <= max_y(pts, n),
    decreases n,
{
    if n > 1 {
        lemma_extremes_in_range(pts, (n - 1) as nat);
    }
}

impl BrushStroke {
    pub open spec fn wf(&self) -> bool {
        forall|i: int| 0 <= i < self.points@.len() ==> (#[trigger] self.points@[i]).position.wf()
    }

    /// Some segment between consecutive samples passes within half the width of `p`.
    pub open spec fn hits(&self, p: Point) -> bool {
        exists|i: int|
            1 <= i < self.points@.len() && near_segment(
                p,
                #[trigger] self.points@[i - 1].position,
                self.points@[i].position,
                self.width as int,
            )
    }

    /// The samples' bounding box padded by half the width; empty at the origin without samples.
    pub open spec fn bounds_spec(&self) -> Rect {
        let pts = self.points@;
        let n = pts.len();
        if n == 0 {
            Rect { x: 0, y: 0, width: 0, height: 0 }
        } else {
            padded(
                Rect {
                    x: min_x(pts, n) as i64,
                    y: min_y(pts, n) as i64,
                    width: (max_x(pts, n) - min_x(pts, n)) as i64,
                    height: (max_y(pts, n) - min_y(pts, n)) as i64,
                },
                half_up(self.width as int),
            )
        }
    }

    pub fn contains(&self, point: Point) -> (r: bool)
        requires
            self.wf(),
            point.wf(),
        ensures
            r == self.hits(point),
    {
        let n = self.points.len();
        let mut i: usize = 1;
        while i < n
            invariant
                1 <= i,
                n == self.points@.len(),
                self.wf(),
                point.wf(),
                forall|j: int|
                    1 <= j < i && j < n ==> !near_segment(
                        point,
                        #[trigger] self.points@[j - 1].position,
                        self.points@[j].position,
                        self.width as int,
                    ),
            decreases n - i,
        {
            let a = self.points[i - 1].position;
            let b = self.points[i].position;
            assert(self.points@[i - 1 as int].position.wf());
            assert(self.points@[i as int].position.wf());
            if near_segment_exec(point, a, b, self.width) {
                return true;
            }
            i = i + 1;
        }
        false
    }

    pub fn bounds(&self) -> (r: Rect)
        requires
            self.wf(),
        ensures
            r == self.bounds_spec(),
    {
        let n = self.points.len();
        if n == 0 {
            return Rect { x: 0, y: 0, width: 0, height: 0 };
        }
        let ghost pts = self.points@;
        let mut lo_x = self.points[0].position.x;
        let mut lo_y = self.points[0].position.y;
        let mut hi_x = lo_x;
        let mut hi_y = lo_y;
        let mut i: usize = 1;
        while i < n
            invariant
                1 <= i <= n,
                n == pts.len(),
                pts == self.points@,
                self.wf(),
                lo_x == min_x(pts, i as nat),
                lo_y == min_y(pts, i as nat),
                hi_x == max_x(pts, i as nat),
                hi_y == max_y(pts, i as nat),
            decreases n - i,
        {
            let p = self.points[i].position;
            if p.x < lo_x {
                lo_x = p.x;
            }
            if p.y < lo_y {
                lo_y = p.y;
            }
            if p.x > hi_x {
                hi_x = p.x;
            }
            if p.y > hi_y {
                hi_y = p.y;
            }
            i = i + 1;
        }
        proof {
            lemma_extremes_in_range(pts, n as nat);
        }
        let pad = self.width / 2 + self.width % 2;
        assert(pad as int == half_up(self.width as int));
        padded_exec(Rect { x: lo_x, y: lo_y, width: hi_x - lo_x, height: hi_y - lo_y }, pad)
    }
}

/// A rectangle, circle or line given by the two corners of its drag.
#[derive(Clone, Debug)]
pub struct Shape {
    pub id: String,
    pub shape_type: ShapeType,
    pub start: Point,
    pub end: Point,
    pub color: Rgba,
    pub fill_color: Option<Rgba>,
    pub stroke_width: u32,
}

/// How far `v` lies outside the range from `lo` to `hi`.
pub open spec fn gap(v: int, lo: int, hi: int) -> int {
    if v < lo {
        lo - v
    } else if v > hi {
        v - hi
    } else {
        0
    }
}

/// The larger side of the rectangle spanned by `s` and `e`.
pub open spec fn longer_side(s: Point, e: Point) -> int {
    let r = span(s, e);
    if r.width >= r.height {
        r.width as int
    } else {
        r.height as int
    }
}

/// The square about the midpoint of `s` and `e` that holds the circle of
/// diameter `longer_side(s, e) + sw`, with its edges rounded outward.
pub open spec fn circle_box(s: Point, e: Point, sw: int) -> Rect {
    let d = longer_side(s, e) + sw;
    let x0 = (s.x + e.x - d) / 2;
    let x1 = -((-(s.x + e.x + d)) / 2);
    let y0 = (s.y + e.y - d) / 2;
    let y1 = -((-(s.y + e.y + d)) / 2);
    Rect { x: x0 as i64, y: y0 as i64, width: (x1 - x0) as i64, height: (y1 - y0) as i64 }
}

impl Shape {
    pub open spec fn wf(&self) -> bool {
        self.start.wf() && self.end.wf()
    }

    /// Rectangle: `p` lies within half the stroke width of the filled
    /// spanned rectangle. Circle: `p` lies within the circle about the
    /// midpoint whose radius is half the longer side plus half the stroke
    /// width. Line: `p` lies within half the stroke width of the segment.
    /// When start and end coincide, each is the disc of radius half the
    /// stroke width about that point (see `lemma_zero_length_shape`).
    pub open spec fn hits(&self, p: Point) -> bool {
        let (s, e) = (self.start, self.end);
        let w = self.stroke_width as int;
        match self.shape_type {
            ShapeType::Rectangle => {
                let r = span(s, e);
                let gx = gap(p.x as int, r.x as int, r.x + r.width);
                let gy = gap(p.y as int, r.y as int, r.y + r.height);
                4 * (gx * gx + gy * gy) <= w * w
            },
            ShapeType::Circle => {
                let dx = 2 * p.x - s.x - e.x;
                let dy = 2 * p.y - s.y - e.y;
                let d = longer_side(s, e) + w;
                dx * dx + dy * dy <= d * d
            },
            ShapeType::Line => near_segment(p, s, e, w),
        }
    }

    /// The spanned rectangle padded by half the stroke width; for a circle,
    /// the square that holds it.
    pub open spec fn bounds_spec(&self) -> Rect {
        match self.shape_type {
            ShapeType::Circle => circle_box(self.start, self.end, self.stroke_width as int),
            _ => padded(span(self.start, self.end), half_up(self.stroke_width as int)),
        }
    }

    pub fn contains(&self, point: Point) -> (r: bool)
        requires
            self.wf(),
            point.wf(),
        ensures
            r == self.hits(point),
    {
        let w = self.stroke_width as i128;
        assert(0 <= w * w <= 0x1_0000_0000_0000_0000) by (nonlinear_arith)
            requires
                0 <= w <= 0xffff_ffff,
        ;
        match self.shape_type {
            ShapeType::Rectangle => {
                let rect = span_exec(self.start, self.end);
                let gx = gap_exec(point.x as i128, rect.x as i128, rect.x as i128 + rect.width as i128);
                let gy = gap_exec(point.y as i128, rect.y as i128, rect.y as i128 + rect.height as i128);
                assert(0 <= gx * gx <= 0x400_0000_0000_0000_0000) by (nonlinear_arith)
                    requires
                        0 <= gx <= 0x2_0000_0000,
                ;
                assert(0 <= gy * gy <= 0x400_0000_0000_0000_0000) by (nonlinear_arith)
                    requires
                        0 <= gy <= 0x2_0000_0000,
                ;
                4 * (gx * gx + gy * gy) <= w * w
            },
            ShapeType::Circle => {
                let rect = span_exec(self.start, self.end);
                let dx = 2 * point.x as i128 - self.start.x as i128 - self.end.x as i128;
                let dy = 2 * point.y as i128 - self.start.y as i128 - self.end.y as i128;
                let m = if rect.width >= rect.height {
                    rect.width as i128
                } else {
                    rect.height as i128
                };
                let d = m + w;
                assert(0 <= dx * dx <= 0x100_0000_0000_0000_0000) by (nonlinear_arith)
                    requires
                        -0x1_0000_0000 <= dx <= 0x1_0000_0000,
                ;
                assert(0 <= dy * dy <= 0x100_0000_0000_0000_0000) by (nonlinear_arith)
                    requires
                        -0x1_0000_0000 <= dy <= 0x1_0000_0000,
                ;
                assert(0 <= d * d <= 0x1_0000_0000_0000_0000_0000) by (nonlinear_arith)
                    requires
                        0 <= d <= 0x2_0000_0000,
                ;
                dx * dx + dy * dy <= d * d
            },
            ShapeType::Line => near_segment_exec(point, self.start, self.end, self.stroke_width),
        }
    }

    pub fn bounds(&self) -> (r: Rect)
        requires
            self.wf(),
        ensures
            r == self.bounds_spec(),
    {
        match self.shape_type {
            ShapeType::Circle => {
                let rect = span_exec(self.start, self.end);
                let m = if rect.width >= rect.height {
                    rect.width as i128
                } else {
                    rect.height as i128
                };
                let d = m + self.stroke_width as i128;
                let cx = self.start.x as i128 + self.end.x as i128;
                let cy = self.start.y as i128 + self.end.y as i128;
                let x0 = floor_div(cx - d, 2);
                let x1 = -floor_div(-(cx + d), 2);
                let y0 = floor_div(cy - d, 2);
                let y1 = -floor_div(-(cy + d), 2);
                Rect { x: x0 as i64, y: y0 as i64, width: (x1 - x0) as i64, height: (y1 - y0) as i64 }
            },
            _ => {
                let pad = self.stroke_width / 2 + self.stroke_width % 2;
                padded_exec(span_exec(self.start, self.end), pad)
            },
        }
    }
}

fn gap_exec(v: i128, lo: i128, hi: i128) -> (r: i128)
    requires
        lo <= hi,
        -0x1_0000_0000 <= v <= 0x1_0000_0000,
        -0x1_0000_0000 <= lo <= 0x1_0000_0000,
        -0x1_0000_0000 <= hi <= 0x1_0000_0000,
    ensures
        r == gap(v as int, lo as int, hi as int),
        0 <= r <= 0x2_0000_0000,
{
    if v < lo {
        lo - v
    } else if v > hi {
        v - hi
    } else {
        0
    }
}

/// A shape whose start and end coincide is hit exactly within half its
/// stroke width of that point, whatever its type.
pub proof fn lemma_zero_length_shape(s: Shape, p: Point)
    requires
        s.wf(),
        p.wf(),
        s.start == s.end,
    ensures
        s.hits(p) == (4 * dist2(p, s.start) <= (s.stroke_width as int) * (s.stroke_width as int)),
{
    let (a, w) = (s.start, s.stroke_width as int);
    assert(span(a, a) == Rect { x: a.x, y: a.y, width: 0, height: 0 });
    assert(longer_side(a, a) == 0);
    let dx = p.x - a.x;
    let dy = p.y - a.y;
    match s.shape_type {
        ShapeType::Rectangle => {
            assert(gap(p.x as int, a.x as int, a.x as int) * gap(p.x as int, a.x as int, a.x as int) == dx * dx) by (nonlinear_arith)
                requires
                    gap(p.x as int, a.x as int, a.x as int) == dx || gap(p.x as int, a.x as int, a.x as int) == -dx,
            ;
            assert(gap(p.y as int, a.y as int, a.y as int) * gap(p.y as int, a.y as int, a.y as int) == dy * dy) by (nonlinear_arith)
                requires
                    gap(p.y as int, a.y as int, a.y as int) == dy || gap(p.y as int, a.y as int, a.y as int) == -dy,
            ;
        },
        ShapeType::Circle => {
            assert((2 * dx) * (2 * dx) + (2 * dy) * (2 * dy) == 4 * (dx * dx + dy * dy)) by (nonlinear_arith);
        },
        ShapeType::Line => {},
    }
}

/// `u * u <= v * v` with `v` not negative bounds `u` by `v` on both sides.
proof fn lemma_square_bound(u: int, v: int)
    requires
        v >= 0,
        u * u <= v * v,
    ensures
        -v <= u <= v,
{
    if u > v {
        assert(u * u > v * v) by (nonlinear_arith)
            requires
                u > v,
                v >= 0,
        ;
    }
    if u < -v {
        assert(u * u > v * v) by (nonlinear_arith)
            requires
                u < -v,
                v >= 0,
        ;
    }
}

/// Along one axis, a point whose projection falls inside a segment and that
/// lies within `w / 2` of it lies within `w / 2` of the segment's extent.
/// Here `(ux, uy)` is the point and `(vx, vy)` the far end, both relative
/// to the near end.
proof fn lemma_segment_axis(ux: int, uy: int, vx: int, vy: int, w: int)
    requires
        w >= 0,
        vx * vx + vy * vy > 0,
        0 < ux * vx + uy * vy < vx * vx + vy * vy,
        4 * ((ux * vy - uy * vx) * (ux * vy - uy * vx)) <= w * w * (vx * vx + vy * vy),
    ensures
        2 * ux >= 2 * (if vx < 0 { vx } else { 0 }) - w,
        2 * ux <= 2 * (if vx > 0 { vx } else { 0 }) + w,
{
    let l = vx * vx + vy * vy;
    let dot = ux * vx + uy * vy;
    let cross = ux * vy - uy * vx;
    let x = ux * l - dot * vx;
    assert(x == vy * cross) by (nonlinear_arith)
        requires
            l == vx * vx + vy * vy,
            dot == ux * vx + uy * vy,
            cross == ux * vy - uy * vx,
            x == ux * l - dot * vx,
    ;
    assert(vy * vy <= l) by (nonlinear_arith)
        requires
            l == vx * vx + vy * vy,
    ;
    assert(x * x <= l * (cross * cross)) by (nonlinear_arith)
        requires
            x == vy * cross,
            vy * vy <= l,
    ;
    assert((2 * x) * (2 * x) <= (w * l) * (w * l)) by (nonlinear_arith)
        requires
            x * x <= l * (cross * cross),
            4 * (cross * cross) <= w * w * l,
            l > 0,
    ;
    assert(w * l >= 0) by (nonlinear_arith)
        requires
            w >= 0,
            l > 0,
    ;
    lemma_square_bound(2 * x, w * l);
    let lo = if vx < 0 { vx } else { 0 };
    let hi = if vx > 0 { vx } else { 0 };
    assert(dot * vx >= lo * l && dot * vx <= hi * l) by (nonlinear_arith)
        requires
            0 < dot < l,
            lo == (if vx < 0 { vx } else { 0 }),
            hi == (if vx > 0 { vx } else { 0 }),
    ;
    assert((2 * ux - 2 * lo + w) * l >= 0 && (2 * hi + w - 2 * ux) * l >= 0) by (nonlinear_arith)
        requires
            ux * l == dot * vx + x,
            -(w * l) <= 2 * x <= w * l,
            dot * vx >= lo * l,
            dot * vx <= hi * l,
    ;
    assert(2 * ux - 2 * lo + w >= 0 && 2 * hi + w - 2 * ux >= 0) by (nonlinear_arith)
        requires
            (2 * ux - 2 * lo + w) * l >= 0,
            (2 * hi + w - 2 * ux) * l >= 0,
            l > 0,
    ;
}

/// A point within `w / 2` of a disc's centre `c` lies in the box about `c`.
proof fn lemma_disc_axis(d: int, e: int, w: int)
    requires
        w >= 0,
        4 * (d * d + e * e) <= w * w,
    ensures
        -w <= 2 * d <= w,
{
    assert((2 * d) * (2 * d) <= w * w) by (nonlinear_arith)
        requires
            4 * (d * d + e * e) <= w * w,
    ;
    lemma_square_bound(2 * d, w);
}

/// A point within half of `w` of a segment lies in the segment's spanned
/// rectangle padded by half of `w`, rounded up.
pub proof fn lemma_near_segment_in_box(p: Point, a: Point, b: Point, w: int)
    requires
        p.wf(),
        a.wf(),
        b.wf(),
        0 <= w <= 0xffff_ffff,
        near_segment(p, a, b, w),
    ensures
        padded(span(a, b), half_up(w)).holds(p),
{
    let l = dist2(a, b);
    let (ux, uy, vx, vy) = (p.x - a.x, p.y - a.y, b.x - a.x, b.y - a.y);
    let dot = ux * vx + uy * vy;
    assert(l == vx * vx + vy * vy) by (nonlinear_arith)
        requires
            l == dist2(a, b),
            vx == b.x - a.x,
            vy == b.y - a.y,
    ;
    if l == 0 || dot <= 0 {
        lemma_disc_axis(p.x - a.x, p.y - a.y, w);
        lemma_disc_axis(p.y - a.y, p.x - a.x, w);
    } else if dot >= l {
        lemma_disc_axis(p.x - b.x, p.y - b.y, w);
        lemma_disc_axis(p.y - b.y, p.x - b.x, w);
    } else {
        assert(uy * vx - ux * vy == -(ux * vy - uy * vx));
        assert((uy * vx - ux * vy) * (uy * vx - ux * vy) == (ux * vy - uy * vx) * (ux * vy - uy * vx)) by (nonlinear_arith)
            requires
                uy * vx - ux * vy == -(ux * vy - uy * vx),
        ;
        lemma_segment_axis(ux, uy, vx, vy, w);
        lemma_segment_axis(uy, ux, vy, vx, w);
    }
}

/// Every point that a shape hits lies in its bounding rectangle.
pub proof fn lemma_shape_bounds_hold(s: Shape, p: Point)
    requires
        s.wf(),
        p.wf(),
        s.hits(p),
    ensures
        s.bounds_spec().holds(p),
{
    let (a, b, w) = (s.start, s.end, s.stroke_width as int);
    match s.shape_type {
        ShapeType::Rectangle => {
            let r = span(a, b);
            let gx = gap(p.x as int, r.x as int, r.x + r.width);
            let gy = gap(p.y as int, r.y as int, r.y + r.height);
            lemma_disc_axis(gx, gy, w);
            lemma_disc_axis(gy, gx, w);
        },
        ShapeType::Circle => {
            let dx = 2 * p.x - a.x - b.x;
            let dy = 2 * p.y - a.y - b.y;
            let d = longer_side(a, b) + w;
            assert(dx * dx <= d * d) by (nonlinear_arith)
                requires
                    dx * dx + dy * dy <= d * d,
            ;
            assert(dy * dy <= d * d) by (nonlinear_arith)
                requires
                    dx * dx + dy * dy <= d * d,
            ;
            lemma_square_bound(dx, d);
            lemma_square_bound(dy, d);
        },
        ShapeType::Line => {
            lemma_near_segment_in_box(p, a, b, w);
        },
    }
}

/// A straight arrow from `start` to `end` with a head at `end`.
#[derive(Clone, Debug)]
pub struct Arrow {
    pub id: String,
    pub start: Point,
    pub end: Point,
    pub color: Rgba,
    pub stroke_width: u32,
    pub arrow_style: ArrowStyle,
    pub head_size: u32,
}

impl Arrow {
    pub open spec fn wf(&self) -> bool {
        self.start.wf() && self.end.wf()
    }

    /// `p` lies within half the stroke width of the shaft, or within the head size of the tip.
    pub open spec fn hits(&self, p: Point) -> bool {
        near_segment(p, self.start, self.end, self.stroke_width as int) || dist2(self.end, p)
            <= self.head_size * self.head_size
    }

    /// The spanned rectangle padded by the larger of head size and stroke width.
    pub open spec fn bounds_spec(&self) -> Rect {
        let pad = if self.head_size >= self.stroke_width {
            self.head_size
        } else {
            self.stroke_width
        };
        padded(span(self.start, self.end), pad as int)
    }

    pub fn contains(&self, point: Point) -> (r: bool)
        requires
            self.wf(),
            point.wf(),
        ensures
            r == self.hits(point),
    {
        if near_segment_exec(point, self.start, self.end, self.stroke_width) {
            return true;
        }
        let d = crate::geometry::distance_squared(&self.end, &point);
        let h = self.head_size as u64;
        assert(h * h <= 0xffff_ffff_ffff_ffff) by (nonlinear_arith)
            requires
                h <= 0xffff_ffff,
        ;
        d <= h * h
    }

    pub fn bounds(&self) -> (r: Rect)
        requires
            self.wf(),
        ensures
            r == self.bounds_spec(),
    {
        let pad = if self.head_size >= self.stroke_width {
            self.head_size
        } else {
            self.stroke_width
        };
        padded_exec(span_exec(self.start, self.end), pad)
    }
}

/// Font and colour of a text block; sizes in thousandths of a unit.
#[derive(Clone, Debug)]
pub struct TextStyle {
    pub font_family: String,
    pub font_size: u32,
    pub bold: bool,
    pub italic: bool,
    pub underline: bool,
    pub color: Rgba,
}

/// A block of text anchored at its top-left corner.
#[derive(Clone, Debug)]
pub struct TextElement {
    pub id: String,
    pub position: Point,
    pub width: u32,
    pub text: String,
    pub style: TextStyle,
    pub alignment: TextAlignment,
}

impl TextElement {
    /// The block's box: its width, and a line height of six fifths of the font size.
    pub open spec fn bounds_spec(&self) -> Rect {
        Rect {
            x: self.position.x,
            y: self.position.y,
            width: self.width as i64,
            height: (self.style.font_size * 6 / 5) as i64,
        }
    }

    pub fn bounds(&self) -> (r: Rect)
        ensures
            r == self.bounds_spec(),
    {
        Rect {
            x: self.position.x,
            y: self.position.y,
            width: self.width as i64,
            height: (self.style.font_size as i64 * 6 / 5),
        }
    }

    pub fn contains(&self, point: Point) -> (r: bool)
        ensures
            r == self.bounds_spec().holds(point),
    {
        self.bounds().contains(point)
    }
}

/// An element of a layer.
#[derive(Clone, Debug)]
pub enum CanvasElement {
    BrushStroke(BrushStroke),
    Shape(Shape),
    Arrow(Arrow),
    Text(TextElement),
}

impl CanvasElement {
    pub open spec fn wf(&self) -> bool {
        match self {
            CanvasElement::BrushStroke(b) => b.wf(),
            CanvasElement::Shape(s) => s.wf(),
            CanvasElement::Arrow(a) => a.wf(),
            CanvasElement::Text(_) => true,
        }
    }

    pub open spec fn hits(&self, p: Point) -> bool {
        match self {
            CanvasElement::BrushStroke(b) => b.hits(p),
            CanvasElement::Shape(s) => s.hits(p),
            CanvasElement::Arrow(a) => a.hits(p),
            CanvasElement::Text(t) => t.bounds_spec().holds(p),
        }
    }

    pub open spec fn bounds_spec(&self) -> Rect {
        match self {
            CanvasElement::BrushStroke(b) => b.bounds_spec(),
            CanvasElement::Shape(s) => s.bounds_spec(),
            CanvasElement::Arrow(a) => a.bounds_spec(),
            CanvasElement::Text(t) => t.bounds_spec(),
        }
    }

    pub open spec fn id_spec(&self) -> Seq<char> {
        match self {
            CanvasElement::BrushStroke(b) => b.id@,
            CanvasElement::Shape(s) => s.id@,
            CanvasElement::Arrow(a) => a.id@,
            CanvasElement::Text(t) => t.id@,
        }
    }

    pub fn contains(&self, point: Point) -> (r: bool)
        requires
            self.wf(),
            point.wf(),
        ensures
            r == self.hits(point),
    {
        match self {
            CanvasElement::BrushStroke(b) => b.contains(point),
            CanvasElement::Shape(s) => s.contains(point),
            CanvasElement::Arrow(a) => a.contains(point),
            CanvasElement::Text(t) => t.contains(point),
        }
    }

    pub fn bounds(&self) -> (r: Rect)
        requires
            self.wf(),
        ensures
            r == self.bounds_spec(),
    {
        match self {
            CanvasElement::BrushStroke(b) => b.bounds(),
            CanvasElement::Shape(s) => s.bounds(),
            CanvasElement::Arrow(a) => a.bounds(),
            CanvasElement::Text(t) => t.bounds(),
        }
    }

    /// The element's kind: brush_stroke, rectangle, circle, line, arrow or text.
    pub fn element_type(&self) -> (r: &'static str)
        ensures
            r@ == (match self {
                CanvasElement::BrushStroke(_) => "brush_stroke"@,
                CanvasElement::Shape(s) => match s.shape_type {
                    ShapeType::Rectangle => "rectangle"@,
                    ShapeType::Circle => "circle"@,
                    ShapeType::Line => "line"@,
                },
                CanvasElement::Arrow(_) => "arrow"@,
                CanvasElement::Text(_) => "text"@,
            }),
    {
        match self {
            CanvasElement::BrushStroke(_) => "brush_stroke",
            CanvasElement::Shape(s) => match s.shape_type {
                ShapeType::Rectangle => "rectangle",
                ShapeType::Circle => "circle",
                ShapeType::Line => "line",
            },
            CanvasElement::Arrow(_) => "arrow",
            CanvasElement::Text(_) => "text",
        }
    }

    pub fn id(&self) -> (r: &str)
        ensures
            r@ == self.id_spec(),
    {
        match self {
            CanvasElement::BrushStroke(b) => b.id.as_str(),
            CanvasElement::Shape(s) => s.id.as_str(),
            CanvasElement::Arrow(a) => a.id.as_str(),
            CanvasElement::Text(t) => t.id.as_str(),
        }
    }
}

proof fn lemma_extremes_bound(pts: Seq<StrokePoint>, n: nat, j: int)
    requires
        0 <= j < n <= pts.len(),
    ensures
        min_x(pts, n) <= pts[j].position.x <= max_x(pts, n),
        min_y(pts, n) <= pts[j].position.y <= max_y(pts, n),
    decreases n,
{
    if n > 1 && j < n - 1 {
        lemma_extremes_bound(pts, (n - 1) as nat, j);
    }
}

/// Every point that a brush stroke hits lies in its bounding rectangle.
pub proof fn lemma_stroke_bounds_hold(b: BrushStroke, p: Point)
    requires
        b.wf(),
        p.wf(),
        b.hits(p),
    ensures
        b.bounds_spec().holds(p),
{
    let pts = b.points@;
    let n = pts.len();
    let i = choose|i: int|
        1 <= i < pts.len() && near_segment(p, #[trigger] pts[i - 1].position, pts[i].position, b.width as int);
    lemma_near_segment_in_box(p, pts[i - 1].position, pts[i].position, b.width as int);
    lemma_extremes_bound(pts, n, i - 1);
    lemma_extremes_bound(pts, n, i);
    lemma_extremes_in_range(pts, n);
}

/// Every point that an arrow hits lies in its bounding rectangle.
pub proof fn lemma_arrow_bounds_hold(a: Arrow, p: Point)
    requires
        a.wf(),
        p.wf(),
        a.hits(p),
    ensures
        a.bounds_spec().holds(p),
{
    let w = a.stroke_width as int;
    let h = a.head_size as int;
    if near_segment(p, a.start, a.end, w) {
        lemma_near_segment_in_box(p, a.start, a.end, w);
    } else {
        let dx = p.x - a.end.x;
        let dy = p.y - a.end.y;
        assert(dist2(a.end, p) == dx * dx + dy * dy) by (nonlinear_arith)
            requires
                dx == p.x - a.end.x,
                dy == p.y - a.end.y,
        ;
        assert(4 * (dx * dx + dy * dy) <= (2 * h) * (2 * h)) by (nonlinear_arith)
            requires
                dx * dx + dy * dy <= h * h,
        ;
        lemma_disc_axis(dx, dy, 2 * h);
        lemma_disc_axis(dy, dx, 2 * h);
    }
}

/// Every point that an element hits lies in its bounding rectangle.
pub proof fn lemma_element_bounds_hold(e: CanvasElement, p: Point)
    requires
        e.wf(),
        p.wf(),
        e.hits(p),
    ensures
        e.bounds_spec().holds(p),
{
    match e {
        CanvasElement::BrushStroke(b) => lemma_stroke_bounds_hold(b, p),
        CanvasElement::Shape(s) => lemma_shape_bounds_hold(s, p),
        CanvasElement::Arrow(a) => lemma_arrow_bounds_hold(a, p),
        CanvasElement::Text(_) => {},
    }
}

} // verus!
