//! The eraser: it leaves no element; it records the points it erases at,
//! filling the gaps of fast strokes by linear interpolation.

use vstd::prelude::*;
use crate::element::CanvasElement;
use crate::error::Error;
use crate::geometry::{dist2, distance_squared, floor_div, Point};
use crate::tool::{name_is, PropertyValue, ToolEvent, ToolType};

verus! {

/// `n` is the number of interpolation steps between two samples `d2` apart
/// (squared) for an eraser of size `size`: the least `n` with
/// `n * size / 4 >= distance`, that is `(n * size)^2 >= 16 * d2`.
pub open spec fn is_step_count(n: int, d2: int, size: int) -> bool {
    0 <= n && (n * size) * (n * size) >= 16 * d2 && (n == 0 || ((n - 1) * size) * ((n - 1) * size)
        < 16 * d2)
}

/// The point `i / n` of the way from `a` to `b`, rounded down.
pub open spec fn between(a: Point, b: Point, i: int, n: int) -> Point {
    Point {
        x: (a.x + (b.x - a.x) * i / n) as i64,
        y: (a.y + (b.y - a.y) * i / n) as i64,
    }
}

/// The points erased when the pointer moves from `a` to `b` in `n` steps:
/// the `n - 1` points between them, then `b`.
pub open spec fn stroke_points(a: Point, b: Point, n: int) -> Seq<Point> {
    if n > 1 {
        Seq::new((n - 1) as nat, |j: int| between(a, b, j + 1, n)).push(b)
    } else {
        seq![b]
    }
}

fn isqrt_wide(n: u128) -> (r: u128)
    requires
        n < 0x10_0000_0000_0000_0000,
    ensures
        r * r <= n < (r + 1) * (r + 1),
        r < 0x4_0000_0000,
{
    let mut lo: u128 = 0;
    let mut hi: u128 = 0x4_0000_0000;
    assert(n < hi * hi) by (nonlinear_arith)
        requires
            hi == 0x4_0000_0000,
            n < 0x10_0000_0000_0000_0000,
    ;
    while hi - lo > 1
        invariant
            lo < hi <= 0x4_0000_0000,
            lo * lo <= n,
            n < hi * hi,
        decreases hi - lo,
    {
        let mid = lo + (hi - lo) / 2;
        assert(mid * mid <= 0x10_0000_0000_0000_0000) by (nonlinear_arith)
            requires
                mid <= 0x4_0000_0000,
        ;
        if mid * mid <= n {
            lo = mid;
        } else {
            hi = mid;
        }
    }
    lo
}

/// The number of interpolation steps: `ceil(distance / (size / 4))`.
pub fn interpolation_steps(d2: u64, size: u32) -> (r: u64)
    requires
        size > 0,
        d2 <= 0x2000_0000_0000_0000,
    ensures
        is_step_count(r as int, d2 as int, size as int),
        r <= 0x10_0000_0000,
{
    let big = 16 * d2 as u128;
    let root = isqrt_wide(big);
    // the least m with m * m >= big
    let m = if root * root == big {
        root
    } else {
        root + 1
    };
    let s = size as u128;
    let n = (m + s - 1) / s;
    proof {
        let (mi, si, ni) = (m as int, s as int, n as int);
        assert(mi * mi >= big);
        assert(mi == 0 || (mi - 1) * (mi - 1) < big) by (nonlinear_arith)
            requires
                root * root <= big < (root + 1) * (root + 1),
                mi == root || (mi == root + 1 && root * root != big),
                root >= 0,
        ;
        vstd::arithmetic::div_mod::lemma_fundamental_div_mod(mi + si - 1, si);
        assert(ni * si >= mi && (ni == 0 || (ni - 1) * si < mi)) by (nonlinear_arith)
            requires
                mi + si - 1 == si * ni + (mi + si - 1) % si,
                0 <= (mi + si - 1) % si < si,
                si > 0,
                mi >= 0,
        ;
        assert((ni * si) * (ni * si) >= mi * mi) by (nonlinear_arith)
            requires
                ni * si >= mi,
                mi >= 0,
        ;
        if ni > 0 {
            assert(((ni - 1) * si) * ((ni - 1) * si) < big) by (nonlinear_arith)
                requires
                    (ni - 1) * si < mi,
                    ni >= 1,
                    si > 0,
                    mi == 0 || (mi - 1) * (mi - 1) < big,
                    mi * mi >= big,
            ;
        }
        assert(ni <= 0x10_0000_0000) by (nonlinear_arith)
            requires
                ni == 0 || (ni - 1) * si < mi,
                mi <= 0x4_0000_0000,
                si >= 1,
        ;
    }
    n as u64
}

/// Eraser settings as exported or imported; an absent size leaves it as it is.
#[derive(Debug, Clone, Copy)]
pub struct EraserSettings {
    pub size: Option<u32>,
}

#[derive(Debug)]
pub struct EraserTool {
    pub size: u32,
    pub is_erasing: bool,
    pub last_position: Option<Point>,
    /// The points erased at during the current gesture, in order.
    pub erased: Vec<Point>,
}

impl EraserTool {
    pub open spec fn wf(&self) -> bool {
        self.last_position matches Some(p) ==> p.wf()
    }

    pub fn new() -> (r: EraserTool)
        ensures
            r.size == 20_000,
            !r.is_erasing,
            r.last_position is None,
            r.erased@.len() == 0,
    {
        EraserTool { size: 20_000, is_erasing: false, last_position: None, erased: Vec::new() }
    }

    pub fn tool_type(&self) -> (r: ToolType)
        ensures
            r == ToolType::Eraser,
    {
        ToolType::Eraser
    }

    /// Sets the size, clamped to between five and a hundred units.
    pub fn set_size(&mut self, size: u32)
        ensures
            final(self).size == (if size < 5000 { 5000 } else if size > 100_000 { 100_000 } else { size }),
            final(self).is_erasing == old(self).is_erasing,
            final(self).last_position == old(self).last_position,
            final(self).erased@ == old(self).erased@,
    {
        self.size = if size < 5000 {
            5000
        } else if size > 100_000 {
            100_000
        } else {
            size
        };
    }

    /// The relation between the tool before (`old`) and after (`new`) it
    /// handles `event`, and the result `r`.
    pub open spec fn step(old: &EraserTool, new: &EraserTool, event: ToolEvent, r: Result<(), Error>) -> bool {
        match event {
            ToolEvent::Down { position, .. } => r is Ok && new.size == old.size
                && new.is_erasing && new.last_position == Some(position)
                && new.erased@ == seq![position],
            ToolEvent::Move { position, .. } => r is Ok && new.size == old.size
                && new.is_erasing == old.is_erasing
                && if old.is_erasing {
                    new.last_position == Some(position) && match old.last_position {
                        Some(a) => if old.size > 0 {
                            exists|n: int| #[trigger] is_step_count(n, dist2(a, position), old.size as int)
                                && new.erased@ == old.erased@ + stroke_points(a, position, n)
                        } else {
                            new.erased@ == old.erased@.push(position)
                        },
                        None => new.erased@ == old.erased@.push(position),
                    }
                } else {
                    new.last_position == old.last_position && new.erased@ == old.erased@
                },
            ToolEvent::Up { .. } => r is Ok && new.size == old.size && !new.is_erasing
                && new.last_position is None && new.erased@ == old.erased@,
            ToolEvent::PropertyChanged { name, value } => new.is_erasing == old.is_erasing
                && new.last_position == old.last_position
                && new.erased@ == old.erased@
                && if name@ == "size"@ {
                    r is Ok && new.size == (match value { PropertyValue::Size(s) => s, _ => old.size })
                } else {
                    (r matches Err(Error::UnknownProperty(n)) && n@ == name@) && new.size == old.size
                },
        }
    }

    /// Down starts erasing at the position. Move, while erasing, erases at
    /// the points between the last sample and the new one (when the number
    /// of steps exceeds one) and then at the new one. Up stops erasing. A
    /// property change sets `size`, and fails for any other name.
    pub fn handle_event(&mut self, event: ToolEvent) -> (r: Result<(), Error>)
        requires
            old(self).wf(),
            event.wf(),
        ensures
            final(self).wf(),
            EraserTool::step(old(self), final(self), event, r),

    {
        match event {
            ToolEvent::Down { position, .. } => {
                self.is_erasing = true;
                self.last_position = Some(position);
                self.erased = Vec::new();
                self.erased.push(position);
                assert(self.erased@ =~= seq![position]);
                assert(self.is_erasing && self.last_position == Some(position));
                assert(self.size == old(self).size);
                Ok(())
            },
            ToolEvent::Move { position, .. } => {
                if self.is_erasing {
                    if let Some(last) = self.last_position {
                        if self.size > 0 {
                            let d2 = distance_squared(&last, &position);
                            let steps = interpolation_steps(d2, self.size);
                            let ghost before = self.erased@;
                            if steps > 1 {
                                let mut i: u64 = 1;
                                while i < steps
                                    invariant
                                        1 <= i <= steps,
                                        steps <= 0x10_0000_0000,
                                        last.wf(),
                                        position.wf(),
                                        self.erased@ == before + Seq::new((i - 1) as nat, |j: int| between(last, position, j + 1, steps as int)),
                                        self.size == old(self).size,
                                        self.is_erasing == old(self).is_erasing,
                                        self.last_position == old(self).last_position,
                                    decreases steps - i,
                                {
                                    let p = interpolate(last, position, i, steps);
                                    self.erased.push(p);
                                    proof {
                                        assert(self.erased@ =~= before + Seq::new(i as nat, |j: int| between(last, position, j + 1, steps as int)));
                                    }
                                    i = i + 1;
                                }
                            }
                            self.erased.push(position);
                            proof {
                                if steps > 1 {
                                    assert(self.erased@ =~= before + stroke_points(last, position, steps as int));
                                } else {
                                    assert(self.erased@ =~= before + stroke_points(last, position, steps as int));
                                }
                                assert(is_step_count(steps as int, dist2(last, position), self.size as int));
                            }
                        } else {
                            self.erased.push(position);
                        }
                    } else {
                        self.erased.push(position);
                    }
                    self.last_position = Some(position);
                }
                Ok(())
            },
            ToolEvent::Up { .. } => {
                self.is_erasing = false;
                self.last_position = None;
                Ok(())
            },
            ToolEvent::PropertyChanged { name, value } => {
                if name_is(&name, "size") {
                    if let PropertyValue::Size(s) = value {
                        self.size = s;
                    }
                    Ok(())
                } else {
                    Err(Error::UnknownProperty(name))
                }
            },
        }
    }

    pub fn settings(&self) -> (r: EraserSettings)
        ensures
            r == (EraserSettings { size: Some(self.size) }),
    {
        EraserSettings { size: Some(self.size) }
    }

    /// Takes the size when present; the gesture stays.
    pub fn apply_settings(&mut self, s: EraserSettings)
        ensures
            final(self).size == (match s.size { Some(v) => v, None => old(self).size }),
            final(self).is_erasing == old(self).is_erasing,
            final(self).last_position == old(self).last_position,
            final(self).erased@ == old(self).erased@,
    {
        if let Some(v) = s.size {
            self.size = v;
        }
    }

    /// The eraser never produces an element.
    pub fn create_element(&self) -> (r: Option<CanvasElement>)
        ensures
            r is None,
    {
        None
    }

    /// Stops erasing and forgets the gesture; the size stays.
    pub fn reset(&mut self)
        ensures
            final(self).size == old(self).size,
            !final(self).is_erasing,
            final(self).last_position is None,
            final(self).erased@.len() == 0,
    {
        self.is_erasing = false;
        self.last_position = None;
        self.erased = Vec::new();
    }
}

fn interpolate(a: Point, b: Point, i: u64, n: u64) -> (r: Point)
    requires
        a.wf(),
        b.wf(),
        1 <= i < n <= 0x10_0000_0000,
    ensures
        r == between(a, b, i as int, n as int),
{
    let dx = b.x as i128 - a.x as i128;
    let dy = b.y as i128 - a.y as i128;
    assert(-0x40_0000_0000_0000_0000 <= dx * i <= 0x40_0000_0000_0000_0000) by (nonlinear_arith)
        requires
            -0x4000_0000 <= dx <= 0x4000_0000,
            1 <= i <= 0x10_0000_0000,
    ;
    assert(-0x40_0000_0000_0000_0000 <= dy * i <= 0x40_0000_0000_0000_0000) by (nonlinear_arith)
        requires
            -0x4000_0000 <= dy <= 0x4000_0000,
            1 <= i <= 0x10_0000_0000,
    ;
    let qx = floor_div(dx * i as i128, n as i128);
    let qy = floor_div(dy * i as i128, n as i128);
    assert(-0x4000_0000 <= qx <= 0x4000_0000) by (nonlinear_arith)
        requires
            -0x4000_0000 <= dx <= 0x4000_0000,
            1 <= i < n,
            qx == (dx * i) / (n as int),
    ;
    assert(-0x4000_0000 <= qy <= 0x4000_0000) by (nonlinear_arith)
        requires
            -0x4000_0000 <= dy <= 0x4000_0000,
            1 <= i < n,
            qy == (dy * i) / (n as int),
    ;
    Point { x: (a.x as i128 + qx) as i64, y: (a.y as i128 + qy) as i64 }
}

} // verus!
