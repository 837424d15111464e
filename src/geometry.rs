//! Geometry on exact integers.
//!
//! Scene coordinates and lengths are counted in thousandths of a unit
//! (`UNIT` is one unit). A coordinate must lie within `COORD_LIMIT` of the
//! origin, so that every square and cross product the hit tests need fits
//! in an `i128`.

use vstd::prelude::*;
use vstd::arithmetic::div_mod::lemma_fundamental_div_mod;
use vstd::arithmetic::div_mod::lemma_fundamental_div_mod_converse;
use vstd::arithmetic::mul::lemma_mul_is_associative;
use vstd::arithmetic::mul::lemma_mul_is_commutative;
use vstd::arithmetic::mul::lemma_mul_is_distributive_add;
use vstd::arithmetic::mul::lemma_mul_is_distributive_sub;

verus! {

/// One scene unit, in the integer steps that coordinates are counted in.
pub const UNIT: i64 = 1000;

/// The largest magnitude that a coordinate may have.
pub const COORD_LIMIT: i64 = 536_870_912;

/// A coordinate that lies within the supported range.
pub open spec fn coord_ok(v: int) -> bool {
    -COORD_LIMIT <= v <= COORD_LIMIT
}

/// A point of the scene.
#[derive(Clone, Copy, Debug, PartialEq, Eq, Structural)]
pub struct Point {
    pub x: i64,
    pub y: i64,
}

/// Squared Euclidean distance between two points.
pub open spec fn dist2(p: Point, q: Point) -> int {
    (p.x - q.x) * (p.x - q.x) + (p.y - q.y) * (p.y - q.y)
}

/// The integer square root: the largest `r` with `r * r <= n`.
pub open spec fn is_isqrt(r: int, n: int) -> bool {
    0 <= r && r * r <= n && n < (r + 1) * (r + 1)
}

impl Point {
    /// Both coordinates lie within the supported range.
    pub open spec fn wf(&self) -> bool {
        coord_ok(self.x as int) && coord_ok(self.y as int)
    }

    pub fn new(x: i64, y: i64) -> (r: Point)
        ensures
            r.x == x,
            r.y == y,
    {
        Point { x, y }
    }

    /// Euclidean distance, rounded down to a whole step.
    pub fn distance_to(&self, other: &Point) -> (r: u64)
        requires
            self.wf(),
            other.wf(),
        ensures
            is_isqrt(r as int, dist2(*self, *other)),
    {
        let d = distance_squared(self, other);
        isqrt(d)
    }
}

/// Squared distance between two points of the supported range.
pub fn distance_squared(p: &Point, q: &Point) -> (r: u64)
    requires
        p.wf(),
        q.wf(),
    ensures
        r as int == dist2(*p, *q),
        r <= 0x2000_0000_0000_0000,
{
    let dx = p.x as i128 - q.x as i128;
    let dy = p.y as i128 - q.y as i128;
    assert(0 <= dx * dx <= 0x1000_0000_0000_0000) by (nonlinear_arith)
        requires
            -0x4000_0000 <= dx <= 0x4000_0000,
    ;
    assert(0 <= dy * dy <= 0x1000_0000_0000_0000) by (nonlinear_arith)
        requires
            -0x4000_0000 <= dy <= 0x4000_0000,
    ;
    (dx * dx + dy * dy) as u64
}

/// Integer square root by bisection.
pub fn isqrt(n: u64) -> (r: u64)
    ensures
        is_isqrt(r as int, n as int),
{
    let mut lo: u64 = 0;
    let mut hi: u64 = 0x1_0000_0000;
    assert(n < hi * hi) by (nonlinear_arith)
        requires
            hi == 0x1_0000_0000,
            n < 0x1_0000_0000_0000_0000,
    ;
    while hi - lo > 1
        invariant
            lo < hi <= 0x1_0000_0000,
            lo * lo <= n,
            n < hi * hi,
        decreases hi - lo,
    {
        let mid = lo + (hi - lo) / 2;
        assert(lo < mid < hi);
        assert(mid * mid <= 0x1_0000_0000_0000_0000) by (nonlinear_arith)
            requires
                mid <= 0x1_0000_0000,
        ;
        if (mid as u128) * (mid as u128) <= n as u128 {
            lo = mid;
        } else {
            hi = mid;
        }
    }
    assert(hi == lo + 1);
    lo
}

/// An axis-aligned rectangle; its edges belong to it.
#[derive(Clone, Copy, Debug, PartialEq, Eq, Structural)]
pub struct Rect {
    pub x: i64,
    pub y: i64,
    pub width: i64,
    pub height: i64,
}

impl Rect {
    /// Width and height are not negative, and the far corner is representable.
    pub open spec fn wf(&self) -> bool {
        self.width >= 0 && self.height >= 0 && self.x + self.width <= i64::MAX && self.y
            + self.height <= i64::MAX
    }

    /// The closed region holds `p`.
    pub open spec fn holds(&self, p: Point) -> bool {
        self.x <= p.x <= self.x + self.width && self.y <= p.y <= self.y + self.height
    }

    /// The closed regions of the two rectangles overlap on both axes.
    pub open spec fn overlaps(&self, o: Rect) -> bool {
        self.x <= o.x + o.width && o.x <= self.x + self.width && self.y <= o.y + o.height
            && o.y <= self.y + self.height
    }

    pub fn new(x: i64, y: i64, width: i64, height: i64) -> (r: Rect)
        ensures
            r == (Rect { x, y, width, height }),
    {
        Rect { x, y, width, height }
    }

    pub fn contains(&self, point: Point) -> (r: bool)
        ensures
            r == self.holds(point),
    {
        let right = self.x as i128 + self.width as i128;
        let bottom = self.y as i128 + self.height as i128;
        self.x <= point.x && point.x as i128 <= right && self.y <= point.y && point.y as i128
            <= bottom
    }

    pub fn intersects(&self, other: &Rect) -> (r: bool)
        ensures
            r == self.overlaps(*other),
    {
        !(self.x as i128 > other.x as i128 + other.width as i128 || (self.x as i128
            + self.width as i128) < other.x as i128 || self.y as i128 > other.y as i128
            + other.height as i128 || (self.y as i128 + self.height as i128) < other.y as i128)
    }
}

/// A rectangle holds each of its four corners and overlaps itself.
pub proof fn lemma_rect_corners_and_self_overlap(r: Rect)
    requires
        r.wf(),
    ensures
        r.holds(Point { x: r.x, y: r.y }),
        r.holds(Point { x: (r.x + r.width) as i64, y: r.y }),
        r.holds(Point { x: r.x, y: (r.y + r.height) as i64 }),
        r.holds(Point { x: (r.x + r.width) as i64, y: (r.y + r.height) as i64 }),
        r.overlaps(r),
{
}


/// The largest magnitude of a transform's linear coefficients and denominator.
pub const LINEAR_LIMIT: i128 = 0x100_0000_0000;

/// The largest magnitude of a transform's translation coefficients.
pub const SHIFT_LIMIT: i128 = 0x1_0000_0000_0000_0000_0000;

/// The largest magnitude of a linear coefficient that `apply` takes.
pub const APPLY_LIMIT: i128 = 0x1_0000_0000_0000_0000_0000_0000;

/// The largest magnitude of a translation coefficient that `apply` takes.
pub const APPLY_SHIFT_LIMIT: i128 = 0x1000_0000_0000_0000_0000_0000_0000_0000;

/// An affine map with a common positive denominator `s`:
/// `(x, y)` goes to `((a x + c y + e) / s, (b x + d y + f) / s)`.
#[derive(Clone, Copy, Debug, PartialEq, Eq, Structural)]
pub struct Transform {
    pub a: i128,
    pub b: i128,
    pub c: i128,
    pub d: i128,
    pub e: i128,
    pub f: i128,
    pub s: i128,
}

/// `n / d` rounded toward negative infinity (for `d > 0`, the same as `int` division).
pub fn floor_div(n: i128, d: i128) -> (r: i128)
    requires
        d > 0,
    ensures
        r == n / d,
{
    if n >= 0 {
        n / d
    } else {
        let m = -(n + 1);
        let q = m / d;
        let rem = m % d;
        proof {
            lemma_fundamental_div_mod(m as int, d as int);
            assert(n == (-q - 1) * d + (d - rem - 1)) by (nonlinear_arith)
                requires
                    m == d * q + rem,
                    n == -m - 1,
            ;
            lemma_fundamental_div_mod_converse(n as int, d as int, -q - 1, d - rem - 1);
        }
        -q - 1
    }
}

/// `v` when `keep` holds, else `-v`.
pub open spec fn signed(keep: bool, v: int) -> int {
    if keep {
        v
    } else {
        -v
    }
}

/// `v` when `keep` holds, else `-v`.
fn signed_exec(keep: bool, v: i128) -> (r: i128)
    requires
        v > i128::MIN,
    ensures
        r == signed(keep, v as int),
{
    if keep {
        v
    } else {
        -v
    }
}

/// The absolute value of an integer.
pub open spec fn abs(v: int) -> int {
    if v < 0 {
        -v
    } else {
        v
    }
}

impl Transform {
    /// The denominator is positive and the coefficients are small enough for
    /// inversion and composition to be computed exactly.
    pub open spec fn wf(&self) -> bool {
        0 < self.s <= LINEAR_LIMIT && abs(self.a as int) <= LINEAR_LIMIT && abs(self.b as int)
            <= LINEAR_LIMIT && abs(self.c as int) <= LINEAR_LIMIT && abs(self.d as int)
            <= LINEAR_LIMIT && abs(self.e as int) <= SHIFT_LIMIT && abs(self.f as int)
            <= SHIFT_LIMIT
    }

    /// Small enough coefficients for `apply` to compute exactly; the results
    /// of `inverse` and `compose` on well-formed maps are such maps.
    pub open spec fn applicable(&self) -> bool {
        self.s > 0 && abs(self.a as int) <= APPLY_LIMIT && abs(self.b as int) <= APPLY_LIMIT
            && abs(self.c as int) <= APPLY_LIMIT && abs(self.d as int) <= APPLY_LIMIT
            && abs(self.e as int) <= APPLY_SHIFT_LIMIT && abs(self.f as int) <= APPLY_SHIFT_LIMIT
    }

    /// Determinant of the integer matrix; the map's own determinant is this over `s * s`.
    pub open spec fn det(&self) -> int {
        self.a * self.d - self.b * self.c
    }

    /// The map's determinant `det / s^2` has magnitude at least one millionth.
    pub open spec fn invertible(&self) -> bool {
        1_000_000 * abs(self.det()) >= self.s * self.s
    }

    /// First homogeneous coordinate of the image of `(x, y, w)`, which stands for `(x/w, y/w)`.
    pub open spec fn hx(&self, x: int, y: int, w: int) -> int {
        self.a * x + self.c * y + self.e * w
    }

    /// Second homogeneous coordinate of the image of `(x, y, w)`.
    pub open spec fn hy(&self, x: int, y: int, w: int) -> int {
        self.b * x + self.d * y + self.f * w
    }

    /// Third homogeneous coordinate of the image of `(x, y, w)`.
    pub open spec fn hw(&self, w: int) -> int {
        self.s * w
    }

    /// The image of `p`, each coordinate rounded down to a whole step.
    pub open spec fn image(&self, p: Point) -> (int, int) {
        (self.hx(p.x as int, p.y as int, 1) / (self.s as int), self.hy(p.x as int, p.y as int, 1)
            / (self.s as int))
    }

    /// The image of `p` lies within the supported range.
    pub open spec fn maps_in_range(&self, p: Point) -> bool {
        coord_ok(self.image(p).0) && coord_ok(self.image(p).1)
    }

    /// The exact algebraic inverse, with a positive denominator.
    pub open spec fn inverse_spec(&self) -> Transform {
        let p = self.det() > 0;
        Transform {
            a: signed(p, self.d * self.s) as i128,
            b: signed(p, -(self.b * self.s)) as i128,
            c: signed(p, -(self.c * self.s)) as i128,
            d: signed(p, self.a * self.s) as i128,
            e: signed(p, self.c * self.f - self.d * self.e) as i128,
            f: signed(p, self.b * self.e - self.a * self.f) as i128,
            s: signed(p, self.det()) as i128,
        }
    }

    /// The map that applies `self` first and `o` second.
    pub open spec fn followed_by(&self, o: Transform) -> Transform {
        Transform {
            a: (o.a * self.a + o.c * self.b) as i128,
            b: (o.b * self.a + o.d * self.b) as i128,
            c: (o.a * self.c + o.c * self.d) as i128,
            d: (o.b * self.c + o.d * self.d) as i128,
            e: (o.a * self.e + o.c * self.f + o.e * self.s) as i128,
            f: (o.b * self.e + o.d * self.f + o.f * self.s) as i128,
            s: (self.s * o.s) as i128,
        }
    }

    pub fn identity() -> (r: Transform)
        ensures
            r == (Transform { a: 1, b: 0, c: 0, d: 1, e: 0, f: 0, s: 1 }),
            r.wf(),
    {
        Transform { a: 1, b: 0, c: 0, d: 1, e: 0, f: 0, s: 1 }
    }

    /// A shift by `(tx, ty)`.
    pub fn translate(tx: i64, ty: i64) -> (r: Transform)
        ensures
            r == (Transform { a: 1, b: 0, c: 0, d: 1, e: tx as i128, f: ty as i128, s: 1 }),
    {
        Transform { a: 1, b: 0, c: 0, d: 1, e: tx as i128, f: ty as i128, s: 1 }
    }

    /// A scaling by `sx / UNIT` and `sy / UNIT` about the origin.
    pub fn scale(sx: i64, sy: i64) -> (r: Transform)
        ensures
            r == (Transform { a: sx as i128, b: 0, c: 0, d: sy as i128, e: 0, f: 0, s: UNIT as i128 }),
    {
        Transform { a: sx as i128, b: 0, c: 0, d: sy as i128, e: 0, f: 0, s: UNIT as i128 }
    }

    pub fn apply(&self, point: &Point) -> (r: Point)
        requires
            self.applicable(),
            point.wf(),
            self.maps_in_range(*point),
        ensures
            r.x == self.image(*point).0,
            r.y == self.image(*point).1,
            r.wf(),
    {
        let x = point.x as i128;
        let y = point.y as i128;
        proof {
            lemma_apply_product(self.a as int, x as int);
            lemma_apply_product(self.b as int, x as int);
            lemma_apply_product(self.c as int, y as int);
            lemma_apply_product(self.d as int, y as int);
        }
        let nx = self.a * x + self.c * y + self.e;
        let ny = self.b * x + self.d * y + self.f;
        let rx = floor_div(nx, self.s);
        let ry = floor_div(ny, self.s);
        Point { x: rx as i64, y: ry as i64 }
    }

    /// The inverse map, or `None` when the determinant's magnitude is below one millionth.
    pub fn inverse(&self) -> (r: Option<Transform>)
        requires
            self.wf(),
        ensures
            r == (if self.invertible() {
                Some(self.inverse_spec())
            } else {
                None
            }),
            r matches Some(i) ==> i.applicable(),
    {
        let a = self.a;
        let b = self.b;
        let c = self.c;
        let d = self.d;
        let e = self.e;
        let f = self.f;
        let s = self.s;
        proof {
            lemma_linear_products(a as int, d as int);
            lemma_linear_products(b as int, c as int);
            lemma_linear_products(d as int, s as int);
            lemma_linear_products(b as int, s as int);
            lemma_linear_products(c as int, s as int);
            lemma_linear_products(a as int, s as int);
            lemma_shift_products(c as int, f as int);
            lemma_shift_products(d as int, e as int);
            lemma_shift_products(b as int, e as int);
            lemma_shift_products(a as int, f as int);
            lemma_linear_products(s as int, s as int);
        }
        let det = a * d - b * c;
        let mag = if det < 0 {
            -det
        } else {
            det
        };
        if 1_000_000 * mag < s * s {
            return None;
        }
        assert(det != 0) by (nonlinear_arith)
            requires
                1_000_000 * mag >= s * s,
                s > 0,
                mag == abs(det as int),
        ;
        let p = det > 0;
        Some(
            Transform {
                a: signed_exec(p, d * s),
                b: signed_exec(p, -(b * s)),
                c: signed_exec(p, -(c * s)),
                d: signed_exec(p, a * s),
                e: signed_exec(p, c * f - d * e),
                f: signed_exec(p, b * e - a * f),
                s: signed_exec(p, det),
            },
        )
    }

    /// The map that applies `self` first and `other` second.
    pub fn compose(&self, other: &Transform) -> (r: Transform)
        requires
            self.wf(),
            other.wf(),
        ensures
            r == self.followed_by(*other),
            r.applicable(),
    {
        proof {
            lemma_linear_products(other.a as int, self.a as int);
            lemma_linear_products(other.c as int, self.b as int);
            lemma_linear_products(other.b as int, self.a as int);
            lemma_linear_products(other.d as int, self.b as int);
            lemma_linear_products(other.a as int, self.c as int);
            lemma_linear_products(other.c as int, self.d as int);
            lemma_linear_products(other.b as int, self.c as int);
            lemma_linear_products(other.d as int, self.d as int);
            lemma_linear_products(self.s as int, other.s as int);
            lemma_shift_products(other.a as int, self.e as int);
            lemma_shift_products(other.c as int, self.f as int);
            lemma_shift_products(other.b as int, self.e as int);
            lemma_shift_products(other.d as int, self.f as int);
            lemma_shift_products(self.s as int, other.e as int);
            lemma_shift_products(self.s as int, other.f as int);
        }
        let (a1, b1, c1, d1, e1, f1, s1) = (
            self.a,
            self.b,
            self.c,
            self.d,
            self.e,
            self.f,
            self.s,
        );
        let (a2, b2, c2, d2, e2, f2, s2) = (
            other.a,
            other.b,
            other.c,
            other.d,
            other.e,
            other.f,
            other.s,
        );
        assert(s1 * s2 > 0) by (nonlinear_arith)
            requires
                s1 > 0,
                s2 > 0,
        ;
        Transform {
            a: (a2 * a1 + c2 * b1),
            b: (b2 * a1 + d2 * b1),
            c: (a2 * c1 + c2 * d1),
            d: (b2 * c1 + d2 * d1),
            e: (a2 * e1 + c2 * f1 + s1 * e2),
            f: (b2 * e1 + d2 * f1 + s1 * f2),
            s: (s1 * s2),
        }
    }
}

proof fn lemma_apply_product(u: int, x: int)
    requires
        abs(u) <= APPLY_LIMIT,
        coord_ok(x),
    ensures
        abs(u * x) <= 0x2000_0000_0000_0000_0000_0000_0000_0000,
{
    assert(-0x2000_0000_0000_0000_0000_0000_0000_0000 <= u * x <= 0x2000_0000_0000_0000_0000_0000_0000_0000) by (nonlinear_arith)
        requires
            -0x1_0000_0000_0000_0000_0000_0000 <= u <= 0x1_0000_0000_0000_0000_0000_0000,
            -0x2000_0000 <= x <= 0x2000_0000,
    ;
}

proof fn lemma_linear_products(u: int, v: int)
    requires
        abs(u) <= LINEAR_LIMIT,
        abs(v) <= LINEAR_LIMIT,
    ensures
        abs(u * v) <= 0x1_0000_0000_0000_0000_0000,
{
    assert(-0x1_0000_0000_0000_0000_0000 <= u * v <= 0x1_0000_0000_0000_0000_0000) by (nonlinear_arith)
        requires
            -0x100_0000_0000 <= u <= 0x100_0000_0000,
            -0x100_0000_0000 <= v <= 0x100_0000_0000,
    ;
}

proof fn lemma_shift_products(u: int, v: int)
    requires
        abs(u) <= LINEAR_LIMIT,
        abs(v) <= SHIFT_LIMIT,
    ensures
        abs(u * v) <= 0x100_0000_0000_0000_0000_0000_0000_0000,
{
    assert(-0x100_0000_0000_0000_0000_0000_0000_0000 <= u * v <= 0x100_0000_0000_0000_0000_0000_0000_0000) by (nonlinear_arith)
        requires
            -0x100_0000_0000 <= u <= 0x100_0000_0000,
            -0x1_0000_0000_0000_0000_0000 <= v <= 0x1_0000_0000_0000_0000_0000,
    ;
}

proof fn lemma_spread(k: int, p: int, q: int, r: int, x: int, y: int, w: int)
    ensures
        k * (p * x + q * y + r * w) == (k * p) * x + (k * q) * y + (k * r) * w,
{
    lemma_mul_is_distributive_add(k, p * x + q * y, r * w);
    lemma_mul_is_distributive_add(k, p * x, q * y);
    lemma_mul_is_associative(k, p, x);
    lemma_mul_is_associative(k, q, y);
    lemma_mul_is_associative(k, r, w);
}

/// The inverse undoes the map exactly: on homogeneous coordinates, applying
/// the map and then its inverse gives back `(x, y, w)` times the positive
/// factor `s * |det|`, which is the same point.
pub proof fn lemma_inverse_undoes(t: Transform, x: int, y: int, w: int)
    requires
        t.wf(),
        t.invertible(),
    ensures
        ({
            let i = t.inverse_spec();
            let k = t.s * abs(t.det());
            &&& k > 0
            &&& i.hx(t.hx(x, y, w), t.hy(x, y, w), t.hw(w)) == k * x
            &&& i.hy(t.hx(x, y, w), t.hy(x, y, w), t.hw(w)) == k * y
            &&& i.hw(t.hw(w)) == k * w
        }),
{
    let i = t.inverse_spec();
    let (a, b, c, d, e, f, s) = (t.a as int, t.b as int, t.c as int, t.d as int, t.e as int, t.f as int, t.s as int);
    let det = a * d - b * c;
    let p = det > 0;
    lemma_linear_products(a, d);
    lemma_linear_products(b, c);
    lemma_linear_products(d, s);
    lemma_linear_products(b, s);
    lemma_linear_products(c, s);
    lemma_linear_products(a, s);
    lemma_shift_products(c, f);
    lemma_shift_products(d, e);
    lemma_shift_products(b, e);
    lemma_shift_products(a, f);
    assert(det != 0) by (nonlinear_arith)
        requires
            1_000_000 * abs(det) >= s * s,
            s > 0,
    ;
    let big_x = a * x + c * y + e * w;
    let big_y = b * x + d * y + f * w;
    let big_w = s * w;
    lemma_spread(d, a, c, e, x, y, w);
    lemma_spread(c, b, d, f, x, y, w);
    lemma_spread(b, a, c, e, x, y, w);
    lemma_spread(a, b, d, f, x, y, w);
    lemma_mul_is_distributive_sub(w, c * f, d * e);
    lemma_mul_is_distributive_sub(w, b * e, a * f);
    lemma_mul_is_commutative(w, c * f - d * e);
    lemma_mul_is_commutative(w, b * e - a * f);
    lemma_mul_is_commutative(w, c * f);
    lemma_mul_is_commutative(w, d * e);
    lemma_mul_is_commutative(w, b * e);
    lemma_mul_is_commutative(w, a * f);
    lemma_mul_is_commutative(c, f);
    lemma_mul_is_commutative(b, c);
    lemma_mul_is_commutative(a, b);
    lemma_mul_is_commutative(a, d);
    lemma_mul_is_commutative(c, d);
    lemma_mul_is_commutative(a, f);
    lemma_mul_is_commutative(b, e);
    lemma_mul_is_commutative(d, e);
    lemma_mul_is_distributive_sub(x, a * d, b * c);
    lemma_mul_is_distributive_sub(y, a * d, b * c);
    lemma_mul_is_commutative(x, det);
    lemma_mul_is_commutative(y, det);
    lemma_mul_is_commutative(x, a * d);
    lemma_mul_is_commutative(x, b * c);
    lemma_mul_is_commutative(y, a * d);
    lemma_mul_is_commutative(y, b * c);
    let lx = d * big_x - c * big_y + (c * f - d * e) * w;
    let ly = -(b * big_x) + a * big_y + (b * e - a * f) * w;
    assert(lx == det * x);
    assert(ly == det * y);
    lemma_spread(s, d, -c, c * f - d * e, big_x, big_y, w);
    lemma_spread(s, -b, a, b * e - a * f, big_x, big_y, w);
    lemma_mul_is_commutative(s, d);
    lemma_mul_is_commutative(s, -c);
    lemma_mul_is_commutative(s, -b);
    lemma_mul_is_commutative(s, a);
    lemma_mul_is_associative(c * f - d * e, s, w);
    lemma_mul_is_associative(b * e - a * f, s, w);
    lemma_mul_is_commutative(c * f - d * e, s);
    lemma_mul_is_commutative(b * e - a * f, s);
    assert(-(c * s) == (-c) * s) by (nonlinear_arith);
    assert(-(b * s) == (-b) * s) by (nonlinear_arith);
    assert(d * big_x + (-c) * big_y + (c * f - d * e) * w == lx) by (nonlinear_arith)
        requires lx == d * big_x - c * big_y + (c * f - d * e) * w;
    assert((-b) * big_x + a * big_y + (b * e - a * f) * w == ly) by (nonlinear_arith)
        requires ly == -(b * big_x) + a * big_y + (b * e - a * f) * w;
    assert((d * s) * big_x + (-(c * s)) * big_y + (c * f - d * e) * (s * w) == s * lx);
    assert((-(b * s)) * big_x + (a * s) * big_y + (b * e - a * f) * (s * w) == s * ly);
    assert(det * (s * w) == s * det * w) by (nonlinear_arith);
    assert(s * (det * x) == s * det * x) by (nonlinear_arith);
    assert(s * (det * y) == s * det * y) by (nonlinear_arith);
    let hx = i.hx(big_x, big_y, big_w);
    let hy = i.hy(big_x, big_y, big_w);
    if p {
        assert(i.a == d * s && i.c == -(c * s) && i.e == c * f - d * e);
        assert(i.b == -(b * s) && i.d == a * s && i.f == b * e - a * f && i.s == det);
        assert(abs(det) == det);
        assert(hx == s * det * x);
        assert(hy == s * det * y);
    } else {
        assert(i.a == -(d * s) && i.c == c * s && i.e == -(c * f - d * e));
        assert(i.b == b * s && i.d == -(a * s) && i.f == -(b * e - a * f) && i.s == -det);
        assert(abs(det) == -det);
        assert(hx == -((d * s) * big_x + (-(c * s)) * big_y + (c * f - d * e) * (s * w)))
            by (nonlinear_arith)
            requires
                hx == (-(d * s)) * big_x + (c * s) * big_y + (-(c * f - d * e)) * big_w,
                big_w == s * w,
        ;
        assert(hy == -((-(b * s)) * big_x + (a * s) * big_y + (b * e - a * f) * (s * w)))
            by (nonlinear_arith)
            requires
                hy == (b * s) * big_x + (-(a * s)) * big_y + (-(b * e - a * f)) * big_w,
                big_w == s * w,
        ;
        assert(-(s * det * x) == s * (-det) * x) by (nonlinear_arith);
        assert(-(s * det * y) == s * (-det) * y) by (nonlinear_arith);
        assert(-det * (s * w) == s * (-det) * w) by (nonlinear_arith);
    }
    assert(s * abs(det) > 0) by (nonlinear_arith)
        requires
            s > 0,
            abs(det) > 0,
    ;
}

/// For a map with whole coefficients (denominator one), `apply` followed by
/// the inverse's `apply` gives back every point exactly.
pub proof fn lemma_inverse_round_trip_whole(t: Transform, p: Point)
    requires
        t.wf(),
        t.invertible(),
        t.s == 1,
    ensures
        ({
            let q = t.image(p);
            let i = t.inverse_spec();
            i.hx(q.0, q.1, 1) / (i.s as int) == p.x && i.hy(q.0, q.1, 1) / (i.s as int) == p.y
        }),
{
    let (x, y) = (p.x as int, p.y as int);
    lemma_inverse_undoes(t, x, y, 1);
    let q = t.image(p);
    assert(q.0 == t.hx(x, y, 1) && q.1 == t.hy(x, y, 1));
    assert(t.hw(1) == 1);
    let i = t.inverse_spec();
    let k = t.s * abs(t.det());
    assert(i.hw(1) == k);
    assert(i.s as int == k);
    assert(k * x == x * k) by (nonlinear_arith);
    assert(k * y == y * k) by (nonlinear_arith);
    lemma_fundamental_div_mod_converse(k * x, k, x, 0);
    lemma_fundamental_div_mod_converse(k * y, k, y, 0);
}

/// Composition applies `self` first: on homogeneous coordinates the composed
/// map sends `(x, y, w)` where `o` sends the image of `(x, y, w)` under `t`.
pub proof fn lemma_compose_applies_first_then_second(t: Transform, o: Transform, x: int, y: int, w: int)
    requires
        t.wf(),
        o.wf(),
    ensures
        ({
            let c = t.followed_by(o);
            &&& c.hx(x, y, w) == o.hx(t.hx(x, y, w), t.hy(x, y, w), t.hw(w))
            &&& c.hy(x, y, w) == o.hy(t.hx(x, y, w), t.hy(x, y, w), t.hw(w))
            &&& c.hw(w) == o.hw(t.hw(w))
        }),
{
    let c = t.followed_by(o);
    lemma_linear_products(o.a as int, t.a as int);
    lemma_linear_products(o.c as int, t.b as int);
    lemma_linear_products(o.b as int, t.a as int);
    lemma_linear_products(o.d as int, t.b as int);
    lemma_linear_products(o.a as int, t.c as int);
    lemma_linear_products(o.c as int, t.d as int);
    lemma_linear_products(o.b as int, t.c as int);
    lemma_linear_products(o.d as int, t.d as int);
    lemma_linear_products(t.s as int, o.s as int);
    lemma_shift_products(o.a as int, t.e as int);
    lemma_shift_products(o.c as int, t.f as int);
    lemma_shift_products(o.b as int, t.e as int);
    lemma_shift_products(o.d as int, t.f as int);
    lemma_shift_products(t.s as int, o.e as int);
    lemma_shift_products(t.s as int, o.f as int);
    let a1 = t.a as int;
    let b1 = t.b as int;
    let c1 = t.c as int;
    let d1 = t.d as int;
    let e1 = t.e as int;
    let f1 = t.f as int;
    let s1 = t.s as int;
    let a2 = o.a as int;
    let b2 = o.b as int;
    let c2 = o.c as int;
    let d2 = o.d as int;
    let e2 = o.e as int;
    let f2 = o.f as int;
    let s2 = o.s as int;
    lemma_mul_is_commutative(e2, s1);
    lemma_mul_is_commutative(f2, s1);
    assert(c.a == a2 * a1 + c2 * b1);
    assert(c.c == a2 * c1 + c2 * d1);
    assert(c.a == a2 * a1 + c2 * b1 && c.c == a2 * c1 + c2 * d1 && c.e == a2 * e1 + c2 * f1 + e2 * s1);
    assert(c.b == b2 * a1 + d2 * b1 && c.d == b2 * c1 + d2 * d1 && c.f == b2 * e1 + d2 * f1 + f2 * s1);
    assert(c.s == s1 * s2);
    lemma_spread(a2, a1, c1, e1, x, y, w);
    lemma_spread(c2, b1, d1, f1, x, y, w);
    lemma_spread(b2, a1, c1, e1, x, y, w);
    lemma_spread(d2, b1, d1, f1, x, y, w);
    lemma_mul_is_associative(e2, s1, w);
    lemma_mul_is_associative(f2, s1, w);
    lemma_mul_is_commutative(e2, s1);
    lemma_mul_is_commutative(f2, s1);
    lemma_mul_is_associative(s2, s1, w);
    lemma_mul_is_commutative(s1, s2);
    lemma_mul_is_distributive_add(x, a2 * a1, c2 * b1);
    lemma_mul_is_distributive_add(y, a2 * c1, c2 * d1);
    lemma_mul_is_distributive_add(x, b2 * a1, d2 * b1);
    lemma_mul_is_distributive_add(y, b2 * c1, d2 * d1);
    lemma_mul_is_commutative(x, a2 * a1 + c2 * b1);
    lemma_mul_is_commutative(y, a2 * c1 + c2 * d1);
    lemma_mul_is_commutative(x, b2 * a1 + d2 * b1);
    lemma_mul_is_commutative(y, b2 * c1 + d2 * d1);
    lemma_mul_is_commutative(x, a2 * a1);
    lemma_mul_is_commutative(x, c2 * b1);
    lemma_mul_is_commutative(y, a2 * c1);
    lemma_mul_is_commutative(y, c2 * d1);
    lemma_mul_is_commutative(x, b2 * a1);
    lemma_mul_is_commutative(x, d2 * b1);
    lemma_mul_is_commutative(y, b2 * c1);
    lemma_mul_is_commutative(y, d2 * d1);
    lemma_mul_is_distributive_add(w, a2 * e1 + c2 * f1, e2 * s1);
    lemma_mul_is_distributive_add(w, a2 * e1, c2 * f1);
    lemma_mul_is_distributive_add(w, b2 * e1 + d2 * f1, f2 * s1);
    lemma_mul_is_distributive_add(w, b2 * e1, d2 * f1);
    lemma_mul_is_commutative(w, a2 * e1 + c2 * f1 + e2 * s1);
    lemma_mul_is_commutative(w, b2 * e1 + d2 * f1 + f2 * s1);
    lemma_mul_is_commutative(w, a2 * e1);
    lemma_mul_is_commutative(w, c2 * f1);
    lemma_mul_is_commutative(w, b2 * e1);
    lemma_mul_is_commutative(w, d2 * f1);
    lemma_mul_is_commutative(w, e2 * s1);
    lemma_mul_is_commutative(w, f2 * s1);
    lemma_mul_is_associative(a2, a1, x);
    lemma_mul_is_associative(c2, b1, x);
    lemma_mul_is_associative(a2, c1, y);
    lemma_mul_is_associative(c2, d1, y);
    lemma_mul_is_associative(a2, e1, w);
    lemma_mul_is_associative(c2, f1, w);
    lemma_mul_is_associative(b2, a1, x);
    lemma_mul_is_associative(d2, b1, x);
    lemma_mul_is_associative(b2, c1, y);
    lemma_mul_is_associative(d2, d1, y);
    lemma_mul_is_associative(b2, e1, w);
    lemma_mul_is_associative(d2, f1, w);
}

proof fn lemma_round_trip_axis(n: int, ia: int, ic: int, is: int, s: int, x: int, rx: int, ry: int)
    requires
        s > 0,
        is > 0,
        0 <= rx < s,
        0 <= ry < s,
        s * n + ia * rx + ic * ry == s * (is * x),
    ensures
        is * abs(n / is - x) <= abs(ia) + abs(ic) + is,
{
    let bnd = abs(ia) + abs(ic);
    assert(-(bnd * s) <= ia * rx + ic * ry <= bnd * s) by (nonlinear_arith)
        requires
            bnd == abs(ia) + abs(ic),
            0 <= rx < s,
            0 <= ry < s,
    ;
    assert(-bnd <= n - is * x <= bnd) by (nonlinear_arith)
        requires
            s * n + ia * rx + ic * ry == s * (is * x),
            -(bnd * s) <= ia * rx + ic * ry <= bnd * s,
            s > 0,
    ;
    let q = n / is;
    lemma_fundamental_div_mod(n, is);
    assert(0 <= n % is < is);
    assert(is * q <= n < is * q + is);
    assert(-(bnd + is) <= is * (q - x) <= bnd) by (nonlinear_arith)
        requires
            is * q <= n < is * q + is,
            -bnd <= n - is * x <= bnd,
    ;
    if q - x >= 0 {
        assert(is * abs(q - x) == is * (q - x));
    } else {
        assert(is * abs(q - x) == -(is * (q - x))) by (nonlinear_arith)
            requires
                q - x < 0,
        ;
    }
}

/// Applying a map and then its inverse, each rounding down to a whole step,
/// returns every point to within `(|i.a| + |i.c|) / i.s + 1` steps on x and
/// `(|i.b| + |i.d|) / i.s + 1` on y, where `i` is the inverse: the inverse's
/// own coefficients, in units, plus one step.
pub proof fn lemma_round_trip_error(t: Transform, p: Point)
    requires
        t.wf(),
        t.invertible(),
    ensures
        ({
            let q = t.image(p);
            let i = t.inverse_spec();
            &&& i.s > 0
            &&& i.s * abs(i.hx(q.0, q.1, 1) / (i.s as int) - p.x) <= abs(i.a as int) + abs(i.c as int) + i.s
            &&& i.s * abs(i.hy(q.0, q.1, 1) / (i.s as int) - p.y) <= abs(i.b as int) + abs(i.d as int) + i.s
        }),
{
    let (x, y) = (p.x as int, p.y as int);
    lemma_inverse_undoes(t, x, y, 1);
    let i = t.inverse_spec();
    let s = t.s as int;
    let is = i.s as int;
    let (ia, ib, ic, id, ie, iff) = (i.a as int, i.b as int, i.c as int, i.d as int, i.e as int, i.f as int);
    let big_x = t.hx(x, y, 1);
    let big_y = t.hy(x, y, 1);
    assert(t.hw(1) == s);
    assert(i.hw(s) == is * s);
    assert(is * s == s * abs(t.det()));
    assert(is > 0) by (nonlinear_arith)
        requires
            is * s == s * abs(t.det()),
            s * abs(t.det()) > 0,
            s > 0,
    ;
    assert(i.hx(big_x, big_y, s) == (s * abs(t.det())) * x);
    assert(i.hy(big_x, big_y, s) == (s * abs(t.det())) * y);
    lemma_fundamental_div_mod(big_x, s);
    lemma_fundamental_div_mod(big_y, s);
    let (qx, qy) = (big_x / s, big_y / s);
    let (rx, ry) = (big_x % s, big_y % s);
    let nx = ia * qx + ic * qy + ie;
    let ny = ib * qx + id * qy + iff;
    assert(s * nx + ia * rx + ic * ry == ia * big_x + ic * big_y + ie * s) by (nonlinear_arith)
        requires
            big_x == s * qx + rx,
            big_y == s * qy + ry,
            nx == ia * qx + ic * qy + ie,
    ;
    assert(s * ny + ib * rx + id * ry == ib * big_x + id * big_y + iff * s) by (nonlinear_arith)
        requires
            big_x == s * qx + rx,
            big_y == s * qy + ry,
            ny == ib * qx + id * qy + iff,
    ;
    assert((s * abs(t.det())) * x == s * (is * x)) by (nonlinear_arith)
        requires
            is * s == s * abs(t.det()),
    ;
    assert((s * abs(t.det())) * y == s * (is * y)) by (nonlinear_arith)
        requires
            is * s == s * abs(t.det()),
    ;
    lemma_round_trip_axis(nx, ia, ic, is, s, x, rx, ry);
    lemma_round_trip_axis(ny, ib, id, is, s, y, rx, ry);
}

/// Zooming about a focus: shifting the focus `k` to the origin, scaling by
/// `f / UNIT` and shifting back sends every point `p` to
/// `k + f (p - k) / UNIT`, so the focus itself stays where it is.
pub proof fn lemma_zoom_about_focus(f: int, k: Point, p: Point)
    requires
        abs(f) <= LINEAR_LIMIT,
        k.wf(),
    ensures
        ({
            let to_origin = Transform { a: 1, b: 0, c: 0, d: 1, e: -k.x as i128, f: -k.y as i128, s: 1 };
            let zoom = Transform { a: f as i128, b: 0, c: 0, d: f as i128, e: 0, f: 0, s: UNIT as i128 };
            let back = Transform { a: 1, b: 0, c: 0, d: 1, e: k.x as i128, f: k.y as i128, s: 1 };
            let z = to_origin.followed_by(zoom).followed_by(back);
            &&& z.hx(p.x as int, p.y as int, 1) == UNIT * k.x + f * (p.x - k.x)
            &&& z.hy(p.x as int, p.y as int, 1) == UNIT * k.y + f * (p.y - k.y)
            &&& z.hw(1) == UNIT
            &&& z.image(k) == (k.x as int, k.y as int)
        }),
{
    let (kx, ky) = (k.x as int, k.y as int);
    assert(-0x1000_0000_0000_0000_0000 <= f * kx <= 0x1000_0000_0000_0000_0000) by (nonlinear_arith)
        requires
            -0x100_0000_0000 <= f <= 0x100_0000_0000,
            -0x2000_0000 <= kx <= 0x2000_0000,
    ;
    assert(-0x1000_0000_0000_0000_0000 <= f * ky <= 0x1000_0000_0000_0000_0000) by (nonlinear_arith)
        requires
            -0x100_0000_0000 <= f <= 0x100_0000_0000,
            -0x2000_0000 <= ky <= 0x2000_0000,
    ;
    let to_origin = Transform { a: 1, b: 0, c: 0, d: 1, e: -k.x as i128, f: -k.y as i128, s: 1 };
    let zoom = Transform { a: f as i128, b: 0, c: 0, d: f as i128, e: 0, f: 0, s: UNIT as i128 };
    let back = Transform { a: 1, b: 0, c: 0, d: 1, e: k.x as i128, f: k.y as i128, s: 1 };
    assert(f * (-kx) == -(f * kx)) by (nonlinear_arith);
    assert(f * (-ky) == -(f * ky)) by (nonlinear_arith);
    let m = to_origin.followed_by(zoom);
    assert(m.a == f && m.b == 0 && m.c == 0 && m.d == f && m.s == 1000);
    assert(m.e == -(f * kx) && m.f == -(f * ky));
    let z = m.followed_by(back);
    assert(z.a == f && z.b == 0 && z.c == 0 && z.d == f && z.s == 1000);
    assert(z.e == 1000 * kx - f * kx && z.f == 1000 * ky - f * ky);
    assert(f * (p.x - kx) == f * p.x - f * kx) by (nonlinear_arith);
    assert(f * (p.y - ky) == f * p.y - f * ky) by (nonlinear_arith);
    assert(z.hx(kx, ky, 1) == 1000 * kx);
    assert(z.hy(kx, ky, 1) == 1000 * ky);
    lemma_fundamental_div_mod_converse(1000 * kx, 1000, kx, 0);
    lemma_fundamental_div_mod_converse(1000 * ky, 1000, ky, 0);
}

} // verus!
