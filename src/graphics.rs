//! Wireframe rendering in fixed point: rotation, perspective projection and
//! line rasterization into a window.
//!
//! Lengths and angles are integers in units of 1/10000 (`FIXED_ONE` is 1.0).
//! Sine is the five-term Taylor polynomial of the angle reduced modulo
//! 2 x 3.14159, cosine the sine shifted by a quarter turn; every product and
//! quotient truncates toward zero, which drifts from a floating-point
//! evaluation of the same formulas by at most a few units of 1/10000 per
//! operation.
use vstd::prelude::*;
use vstd::arithmetic::div_mod::{lemma_div_is_ordered, lemma_div_is_ordered_by_denominator, lemma_div_multiples_vanish_fancy};
use crate::screen::{Cell, Pos, Screen, SCREEN_WIDTH, SCREEN_HEIGHT};
use crate::window_manager::{Window, window_print, HORIZONTAL, VERTICAL};

verus! {

/// 1.0 in fixed point.
pub const FIXED_ONE: i64 = 10000;

/// 2 x 3.14159 in fixed point, the period of the sine.
pub const TWO_PI: i64 = 62832;

/// 3.14159 / 2 in fixed point.
pub const HALF_PI: i64 = 15708;

/// Largest magnitude of a coordinate of a rendered point (100.0). With the
/// sine bounded by `TRIG_LIMIT`, this keeps every product of the rotation
/// and the projection within 64 bits.
pub const COORD_LIMIT: i64 = 1_000_000;

/// Largest magnitude of an accumulated rotation angle.
pub const ANGLE_LIMIT: i64 = 4_000_000_000_000_000_000;

/// Bound on the magnitude of the approximate sine and cosine.
pub const TRIG_LIMIT: i64 = 1_400_000;

/// Largest camera scale (10.0), so that the perspective factor stays within
/// the range that `fixed_mul` takes.
pub const SCALE_LIMIT: i64 = 100_000;

/// Smallest depth used in the perspective divide (0.1).
pub const MIN_DEPTH: i64 = 1000;

/// Glyph of a mostly rising diagonal, `\`.
pub const BACKSLASH: u8 = 92;

/// Glyph of a mostly falling diagonal, `/`.
pub const SLASH: u8 = 47;

pub open spec fn abs(x: int) -> int {
    if x < 0 {
        -x
    } else {
        x
    }
}

/// The magnitude of the next Taylor term: `m * ax^2 / d`, each step
/// truncated.
pub open spec fn next_term(m: int, ax: int, d: int) -> int {
    ((m * ax / 10000) * ax / 10000) / d
}

/// The five-term Taylor approximation of `sin(x)` on `|x|` reduced modulo
/// `TWO_PI`, carrying the sign of `x`.
pub open spec fn taylor_sin(x: int) -> int {
    let ax = abs(x) % (TWO_PI as int);
    let m1 = next_term(ax, ax, 6);
    let m2 = next_term(m1, ax, 20);
    let m3 = next_term(m2, ax, 42);
    let m4 = next_term(m3, ax, 72);
    let s = ax - m1 + m2 - m3 + m4;
    if x < 0 {
        -s
    } else {
        s
    }
}

/// The approximate cosine: the sine a quarter turn later.
pub open spec fn taylor_cos(x: int) -> int {
    taylor_sin(x + HALF_PI)
}

/// Fixed-point product, truncated toward zero.
pub open spec fn fmul(a: int, b: int) -> int {
    let m = abs(a) * abs(b) / 10000;
    if (a < 0) != (b < 0) {
        -m
    } else {
        m
    }
}

proof fn lemma_next_term_bound(m: int, ax: int, d: int, bm: int)
    requires
        0 <= m <= bm,
        0 <= ax < TWO_PI,
        d > 0,
    ensures
        0 <= next_term(m, ax, d) <= next_term(bm, TWO_PI - 1, d),
{
    let t = TWO_PI - 1;
    assert(0 <= m * ax <= bm * t) by (nonlinear_arith)
        requires
            0 <= m <= bm,
            0 <= ax <= t,
    ;
    lemma_div_is_ordered(m * ax, bm * t, 10000);
    let a = m * ax / 10000;
    let b = bm * t / 10000;
    assert(0 <= a * ax <= b * t) by (nonlinear_arith)
        requires
            0 <= a <= b,
            0 <= ax <= t,
    ;
    lemma_div_is_ordered(a * ax, b * t, 10000);
    lemma_div_is_ordered(a * ax / 10000, b * t / 10000, d);
}

proof fn lemma_fmul_bound(a: int, b: int, ba: int, bb: int)
    requires
        abs(a) <= ba,
        abs(b) <= bb,
    ensures
        abs(fmul(a, b)) <= ba * bb / 10000,
{
    assert(0 <= abs(a) * abs(b) <= ba * bb) by (nonlinear_arith)
        requires
            0 <= abs(a) <= ba,
            0 <= abs(b) <= bb,
    ;
    lemma_div_is_ordered(abs(a) * abs(b), ba * bb, 10000);
}

fn next_term_exec(m: i64, ax: i64, d: i64) -> (r: i64)
    requires
        0 <= m <= 1_000_000,
        0 <= ax < TWO_PI,
        d > 0,
    ensures
        r == next_term(m as int, ax as int, d as int),
{
    assert(0 <= m * ax <= 1_000_000 * 62832) by (nonlinear_arith)
        requires
            0 <= m <= 1_000_000,
            0 <= ax < 62832,
    ;
    let a = m * ax / FIXED_ONE;
    assert(0 <= a * ax <= 7_000_000 * 62832) by (nonlinear_arith)
        requires
            0 <= a <= 7_000_000,
            0 <= ax < 62832,
    ;
    a * ax / FIXED_ONE / d
}

proof fn lemma_term_bounds(ax: int)
    requires
        0 <= ax < TWO_PI,
    ensures
        0 <= next_term(ax, ax, 6) <= 420_000,
        0 <= next_term(next_term(ax, ax, 6), ax, 20) <= 830_000,
        0 <= next_term(next_term(next_term(ax, ax, 6), ax, 20), ax, 42) <= 790_000,
        0 <= next_term(next_term(next_term(next_term(ax, ax, 6), ax, 20), ax, 42), ax, 72)
            <= 440_000,
{
    let t = TWO_PI - 1;
    assert(next_term(62831, 62831, 6) <= 420_000);
    assert(next_term(420_000, 62831, 20) <= 830_000);
    assert(next_term(830_000, 62831, 42) <= 790_000);
    assert(next_term(790_000, 62831, 72) <= 440_000);
    let m1 = next_term(ax, ax, 6);
    lemma_next_term_bound(ax, ax, 6, t);
    let m2 = next_term(m1, ax, 20);
    lemma_next_term_bound(m1, ax, 20, 420_000);
    let m3 = next_term(m2, ax, 42);
    lemma_next_term_bound(m2, ax, 42, 830_000);
    lemma_next_term_bound(m3, ax, 72, 790_000);
}

/// Approximate sine of an angle in fixed point.
pub fn sin(x: i64) -> (r: i64)
    requires
        -(ANGLE_LIMIT + HALF_PI) <= x <= ANGLE_LIMIT + HALF_PI,
    ensures
        r == taylor_sin(x as int),
        abs(r as int) <= TRIG_LIMIT,
{
    let ax = (if x < 0 {
        -x
    } else {
        x
    }) % TWO_PI;
    proof {
        lemma_term_bounds(ax as int);
    }
    let m1 = next_term_exec(ax, ax, 6);
    let m2 = next_term_exec(m1, ax, 20);
    let m3 = next_term_exec(m2, ax, 42);
    let m4 = next_term_exec(m3, ax, 72);
    let s = ax - m1 + m2 - m3 + m4;
    if x < 0 {
        -s
    } else {
        s
    }
}

/// Approximate cosine: the sine a quarter turn later.
pub fn cos(x: i64) -> (r: i64)
    requires
        -ANGLE_LIMIT <= x <= ANGLE_LIMIT,
    ensures
        r == taylor_cos(x as int),
        abs(r as int) <= TRIG_LIMIT,
{
    sin(x + HALF_PI)
}

/// Fixed-point product, truncated toward zero.
pub fn fixed_mul(a: i64, b: i64) -> (r: i64)
    requires
        abs(a as int) <= 10_000_000_000_000,
        abs(b as int) <= 2_000_000,
    ensures
        r == fmul(a as int, b as int),
{
    proof {
        lemma_fmul_bound(a as int, b as int, 10_000_000_000_000, 2_000_000);
    }
    let ua: i128 = if a < 0 {
        -(a as i128)
    } else {
        a as i128
    };
    let ub: i128 = if b < 0 {
        -(b as i128)
    } else {
        b as i128
    };
    assert(0 <= ua * ub <= 10_000_000_000_000 * 2_000_000) by (nonlinear_arith)
        requires
            0 <= ua <= 10_000_000_000_000,
            0 <= ub <= 2_000_000,
    ;
    let m = (ua * ub / 10000) as i64;
    if (a < 0) != (b < 0) {
        -m
    } else {
        m
    }
}

} // verus!

verus! {

/// A point in space, in fixed point.
#[derive(Clone, Copy, Debug)]
pub struct Point3D {
    pub x: i64,
    pub y: i64,
    pub z: i64,
}

/// A segment between two points.
#[derive(Clone, Copy, Debug)]
pub struct Line3D {
    pub from: Point3D,
    pub to: Point3D,
}

/// A wireframe: its segments, in drawing order.
pub struct Object3D {
    pub lines: Vec<Line3D>,
}

/// The viewer: `distance` is the offset from the origin along the view axis.
#[derive(Clone, Copy, Debug)]
pub struct Camera {
    pub position: Point3D,
    pub rotation: (i64, i64, i64),
    pub scale: i64,
    pub distance: i64,
}

/// A camera and the accumulated rotation of the object, about x, y and z.
#[derive(Clone, Copy, Debug)]
pub struct Renderer3D {
    pub camera: Camera,
    pub rotation: (i64, i64, i64),
}

impl Point3D {
    pub open spec fn wf(&self) -> bool {
        &&& abs(self.x as int) <= COORD_LIMIT
        &&& abs(self.y as int) <= COORD_LIMIT
        &&& abs(self.z as int) <= COORD_LIMIT
    }
}

impl Object3D {
    pub open spec fn wf(&self) -> bool {
        forall|i: int|
            0 <= i < self.lines@.len() ==> (#[trigger] self.lines@[i]).from.wf()
                && self.lines@[i].to.wf()
    }
}

pub open spec fn angle_wf(a: i64) -> bool {
    abs(a as int) <= ANGLE_LIMIT
}

impl Renderer3D {
    pub open spec fn wf(&self) -> bool {
        &&& angle_wf(self.rotation.0)
        &&& angle_wf(self.rotation.1)
        &&& angle_wf(self.rotation.2)
        &&& 0 <= self.camera.scale <= SCALE_LIMIT
        &&& abs(self.camera.distance as int) <= COORD_LIMIT
    }
}

/// `p` rotated by `rot.0` about x, then `rot.1` about y, then `rot.2` about z.
pub open spec fn rotate_spec(rot: (i64, i64, i64), p: Point3D) -> (int, int, int) {
    let (cx, sx) = (taylor_cos(rot.0 as int), taylor_sin(rot.0 as int));
    let (cy, sy) = (taylor_cos(rot.1 as int), taylor_sin(rot.1 as int));
    let (cz, sz) = (taylor_cos(rot.2 as int), taylor_sin(rot.2 as int));
    let y1 = fmul(p.y as int, cx) - fmul(p.z as int, sx);
    let z1 = fmul(p.y as int, sx) + fmul(p.z as int, cx);
    let x2 = fmul(p.x as int, cy) + fmul(z1, sy);
    let z2 = -fmul(p.x as int, sy) + fmul(z1, cy);
    let x3 = fmul(x2, cz) - fmul(y1, sz);
    let y3 = fmul(x2, sz) + fmul(y1, cz);
    (x3, y3, z2)
}

/// One screen coordinate from a projected fixed-point value: `(v + 1) / 2`
/// of a viewport `size` wide, offset by 2, truncated, negative values
/// pinned to 0.
pub open spec fn to_screen(v: int, size: int) -> int {
    let s = (v + 10000) * (size / 2) + 20000;
    if s < 0 {
        0
    } else {
        s / 10000
    }
}

/// The screen position of `p` after rotation: a perspective divide by its
/// depth plus the camera distance (at least `MIN_DEPTH`), into the 46 x 16
/// viewport at (2, 2).
pub open spec fn project_spec(r: Renderer3D, p: Point3D) -> (int, int) {
    let q = rotate_spec(r.rotation, p);
    let depth = q.2 + r.camera.distance;
    let d = if depth < MIN_DEPTH {
        MIN_DEPTH as int
    } else {
        depth
    };
    let scale = r.camera.scale * 10000 / d;
    (to_screen(fmul(q.0, scale), 46), to_screen(fmul(q.1, scale), 16))
}

/// The glyph of a segment by its slope: mostly flat `-`, mostly upright `|`
/// (a vertical segment included), otherwise a diagonal by the slope's sign.
pub open spec fn line_glyph(dx: int, dy: int) -> u8 {
    if dx == 0 {
        VERTICAL
    } else if 2 * abs(dy) < abs(dx) {
        HORIZONTAL
    } else if abs(dy) > 2 * abs(dx) {
        VERTICAL
    } else if (dx > 0) == (dy > 0) {
        BACKSLASH
    } else {
        SLASH
    }
}

/// Number of cells plotted for a segment: one more than its longer extent.
pub open spec fn line_steps(a: (int, int), b: (int, int)) -> int {
    let dx = abs(b.0 - a.0);
    let dy = abs(b.1 - a.1);
    (if dx > dy {
        dx
    } else {
        dy
    }) + 1
}

/// The `i`-th cell plotted for the segment `a`-`b`.
pub open spec fn line_point(a: (int, int), b: (int, int), i: int) -> (int, int) {
    let n = line_steps(a, b);
    ((a.0 * n + (b.0 - a.0) * i) / n, (a.1 * n + (b.1 - a.1) * i) / n)
}

/// The grid after plotting the first `k` cells of the segment `a`-`b` in `w`.
pub open spec fn plot_line(g: Map<Pos, Cell>, w: Window, a: (int, int), b: (int, int), k: int) -> Map<
    Pos,
    Cell,
>
    decreases k,
{
    if k <= 0 {
        g
    } else {
        let p = line_point(a, b, k - 1);
        window_print(
            plot_line(g, w, a, b, k - 1),
            w,
            p.0,
            p.1,
            seq![line_glyph(b.0 - a.0, b.1 - a.1)],
        )
    }
}

/// Whether a segment is drawn: both ends, before rotation, lie in front of
/// the camera.
pub open spec fn in_front(r: Renderer3D, l: Line3D) -> bool {
    l.from.z + r.camera.distance > 0 && l.to.z + r.camera.distance > 0
}

/// The grid after rendering `lines` in order into `w`.
pub open spec fn render_lines(g: Map<Pos, Cell>, r: Renderer3D, w: Window, lines: Seq<Line3D>) -> Map<
    Pos,
    Cell,
>
    decreases lines.len(),
{
    if lines.len() == 0 {
        g
    } else {
        let prev = render_lines(g, r, w, lines.drop_last());
        let l = lines.last();
        if in_front(r, l) {
            let a = project_spec(r, l.from);
            let b = project_spec(r, l.to);
            plot_line(prev, w, a, b, line_steps(a, b))
        } else {
            prev
        }
    }
}

/// Largest screen coordinate that projection yields.
pub const SCREEN_COORD_LIMIT: u64 = 4_000_000_000_000;

proof fn lemma_interpolate(a: int, b: int, i: int, n: int)
    requires
        0 <= a <= SCREEN_COORD_LIMIT,
        0 <= b <= SCREEN_COORD_LIMIT,
        0 <= i < n,
    ensures
        0 <= a * n + (b - a) * i <= SCREEN_COORD_LIMIT * n,
        0 <= (a * n + (b - a) * i) / n <= SCREEN_COORD_LIMIT,
{
    let l = SCREEN_COORD_LIMIT as int;
    assert(0 <= a * n + (b - a) * i <= l * n) by (nonlinear_arith)
        requires
            0 <= a <= l,
            0 <= b <= l,
            0 <= i < n,
    ;
    lemma_div_is_ordered(0, a * n + (b - a) * i, n);
    lemma_div_is_ordered(a * n + (b - a) * i, l * n, n);
    lemma_div_multiples_vanish_fancy(l, 0, n);
    assert(n * l == l * n) by (nonlinear_arith);
}

proof fn lemma_product_fits(a: int, b: int)
    requires
        0 <= a <= 2 * SCREEN_COORD_LIMIT,
        0 <= b <= 2 * SCREEN_COORD_LIMIT + 1,
    ensures
        0 <= a * b <= 64_000_000_000_008_000_000_000_000,
{
    assert(0 <= a * b <= 64_000_000_000_008_000_000_000_000) by (nonlinear_arith)
        requires
            0 <= a <= 8_000_000_000_000,
            0 <= b <= 8_000_000_000_001,
    ;
}

/// The glyph for a segment with extents `dx` and `dy`.
pub fn get_line_char(dx: i64, dy: i64) -> (r: u8)
    requires
        abs(dx as int) <= SCREEN_COORD_LIMIT,
        abs(dy as int) <= SCREEN_COORD_LIMIT,
    ensures
        r == line_glyph(dx as int, dy as int),
{
    let ax = if dx < 0 {
        -dx
    } else {
        dx
    };
    let ay = if dy < 0 {
        -dy
    } else {
        dy
    };
    if dx == 0 {
        VERTICAL
    } else if 2 * ay < ax {
        HORIZONTAL
    } else if ay > 2 * ax {
        VERTICAL
    } else if (dx > 0) == (dy > 0) {
        BACKSLASH
    } else {
        SLASH
    }
}

} // verus!

verus! {

/// Bound on the rotated x and y coordinates of a point within `COORD_LIMIT`.
pub const ROTATED_LIMIT: i64 = 6_000_000_000_000;

/// The default camera: five units back, unit scale, no rotation.
pub open spec fn default_camera() -> Camera {
    Camera {
        position: Point3D { x: 0, y: 0, z: -50000i64 },
        rotation: (0i64, 0i64, 0i64),
        scale: FIXED_ONE,
        distance: 50000i64,
    }
}

impl Camera {
    /// The default camera: five units back, unit scale, no rotation.
    pub fn new() -> (r: Camera)
        ensures
            r == default_camera(),
    {
        Camera {
            position: Point3D { x: 0, y: 0, z: -50000 },
            rotation: (0, 0, 0),
            scale: FIXED_ONE,
            distance: 5 * FIXED_ONE,
        }
    }
}

fn point(x: i64, y: i64, z: i64) -> (r: Point3D)
    ensures
        r == (Point3D { x, y, z }),
{
    Point3D { x, y, z }
}

fn line(a: Point3D, b: Point3D) -> (r: Line3D)
    ensures
        r == (Line3D { from: a, to: b }),
{
    Line3D { from: a, to: b }
}

/// The twelve edges of the cube with corners at (+-1, +-1, +-1), returned by
/// `create_cube`: the front face (z = 1), the back face (z = -1), then the
/// four edges joining them.
pub open spec fn cube_lines() -> Seq<Line3D> {
    let o = FIXED_ONE;
    let m = (-FIXED_ONE) as i64;
    let a = Point3D { x: m, y: m, z: o };
    let b = Point3D { x: o, y: m, z: o };
    let c = Point3D { x: o, y: o, z: o };
    let d = Point3D { x: m, y: o, z: o };
    let e = Point3D { x: m, y: m, z: m };
    let f = Point3D { x: o, y: m, z: m };
    let g = Point3D { x: o, y: o, z: m };
    let h = Point3D { x: m, y: o, z: m };
    seq![
        Line3D { from: a, to: b },
        Line3D { from: b, to: c },
        Line3D { from: c, to: d },
        Line3D { from: d, to: a },
        Line3D { from: e, to: f },
        Line3D { from: f, to: g },
        Line3D { from: g, to: h },
        Line3D { from: h, to: e },
        Line3D { from: a, to: e },
        Line3D { from: b, to: f },
        Line3D { from: c, to: g },
        Line3D { from: d, to: h },
    ]
}

/// Whether `p` is a corner of the cube (+-1, +-1, +-1).
pub open spec fn is_cube_corner(p: Point3D) -> bool {
    &&& abs(p.x as int) == FIXED_ONE
    &&& abs(p.y as int) == FIXED_ONE
    &&& abs(p.z as int) == FIXED_ONE
}

/// Number of coordinates in which `p` and `q` differ.
pub open spec fn differing_coords(p: Point3D, q: Point3D) -> int {
    (if p.x != q.x { 1int } else { 0int }) + (if p.y != q.y { 1int } else { 0int }) + (if p.z
        != q.z { 1int } else { 0int })
}

/// Whether `l` and `m` join the same two points, in either direction.
pub open spec fn same_segment(l: Line3D, m: Line3D) -> bool {
    (l.from == m.from && l.to == m.to) || (l.from == m.to && l.to == m.from)
}

/// The cube is exactly the twelve edges of [-1, 1]^3: each segment joins two
/// corners that differ in one coordinate, no two segments join the same
/// pair, and every corner lies in front of the default camera.
pub proof fn lemma_cube_edges()
    ensures
        cube_lines().len() == 12,
        forall|i: int|
            0 <= i < 12 ==> is_cube_corner((#[trigger] cube_lines()[i]).from) && is_cube_corner(
                cube_lines()[i].to,
            ) && differing_coords(cube_lines()[i].from, cube_lines()[i].to) == 1
                && cube_lines()[i].from.z + default_camera().distance > 0
                && cube_lines()[i].to.z + default_camera().distance > 0,
        forall|i: int, j: int|
            0 <= i < j < 12 ==> !same_segment(#[trigger] cube_lines()[i], #[trigger] cube_lines()[j]),
{
    let s = cube_lines();
    assert(s.len() == 12);
    assert forall|i: int|
        0 <= i < 12 implies is_cube_corner((#[trigger] s[i]).from) && is_cube_corner(s[i].to)
            && differing_coords(s[i].from, s[i].to) == 1 && s[i].from.z
            + default_camera().distance > 0 && s[i].to.z + default_camera().distance > 0 by {
        assert(0 <= i < 12);
    }
    assert forall|i: int, j: int| 0 <= i < j < 12 implies !same_segment(
        #[trigger] s[i],
        #[trigger] s[j],
    ) by {
        assert(0 <= i < j < 12);
    }
}

/// The cube of `cube_lines`.
pub fn create_cube() -> (r: Object3D)
    ensures
        r.wf(),
        r.lines@ == cube_lines(),
{
    let o = FIXED_ONE;
    let a = point(-o, -o, o);
    let b = point(o, -o, o);
    let c = point(o, o, o);
    let d = point(-o, o, o);
    let e = point(-o, -o, -o);
    let f = point(o, -o, -o);
    let g = point(o, o, -o);
    let h = point(-o, o, -o);
    let lines = vec![
        line(a, b),
        line(b, c),
        line(c, d),
        line(d, a),
        line(e, f),
        line(f, g),
        line(g, h),
        line(h, e),
        line(a, e),
        line(b, f),
        line(c, g),
        line(d, h),
    ];
    assert(lines@ =~= cube_lines());
    Object3D { lines }
}

impl Renderer3D {
    /// The default camera and no rotation.
    pub fn new() -> (r: Renderer3D)
        ensures
            r.wf(),
            r.camera == default_camera(),
            r.rotation == (0i64, 0i64, 0i64),
    {
        Renderer3D { camera: Camera::new(), rotation: (0, 0, 0) }
    }

    fn rotate_point(&self, p: Point3D) -> (r: Point3D)
        requires
            self.wf(),
            p.wf(),
        ensures
            (r.x as int, r.y as int, r.z as int) == rotate_spec(self.rotation, p),
            abs(r.x as int) <= ROTATED_LIMIT,
            abs(r.y as int) <= ROTATED_LIMIT,
            abs(r.z as int) <= ROTATED_LIMIT,
    {
        let (rot_x, rot_y, rot_z) = self.rotation;
        let ghost t = TRIG_LIMIT as int;
        let cos_x = cos(rot_x);
        let sin_x = sin(rot_x);
        proof {
            lemma_fmul_bound(p.y as int, cos_x as int, COORD_LIMIT as int, t);
            lemma_fmul_bound(p.z as int, sin_x as int, COORD_LIMIT as int, t);
            lemma_fmul_bound(p.y as int, sin_x as int, COORD_LIMIT as int, t);
            lemma_fmul_bound(p.z as int, cos_x as int, COORD_LIMIT as int, t);
        }
        let y1 = fixed_mul(p.y, cos_x) - fixed_mul(p.z, sin_x);
        let z1 = fixed_mul(p.y, sin_x) + fixed_mul(p.z, cos_x);
        let ghost r1 = 280_000_000int;
        let cos_y = cos(rot_y);
        let sin_y = sin(rot_y);
        proof {
            lemma_fmul_bound(p.x as int, cos_y as int, COORD_LIMIT as int, t);
            lemma_fmul_bound(z1 as int, sin_y as int, r1, t);
            lemma_fmul_bound(p.x as int, sin_y as int, COORD_LIMIT as int, t);
            lemma_fmul_bound(z1 as int, cos_y as int, r1, t);
        }
        let x2 = fixed_mul(p.x, cos_y) + fixed_mul(z1, sin_y);
        let z2 = -fixed_mul(p.x, sin_y) + fixed_mul(z1, cos_y);
        let ghost r2 = 40_000_000_000int;
        let cos_z = cos(rot_z);
        let sin_z = sin(rot_z);
        proof {
            lemma_fmul_bound(x2 as int, cos_z as int, r2, t);
            lemma_fmul_bound(y1 as int, sin_z as int, r1, t);
            lemma_fmul_bound(x2 as int, sin_z as int, r2, t);
            lemma_fmul_bound(y1 as int, cos_z as int, r1, t);
        }
        let x3 = fixed_mul(x2, cos_z) - fixed_mul(y1, sin_z);
        let y3 = fixed_mul(x2, sin_z) + fixed_mul(y1, cos_z);
        Point3D { x: x3, y: y3, z: z2 }
    }

    fn project_point(&self, p: Point3D) -> (r: (u64, u64))
        requires
            self.wf(),
            p.wf(),
        ensures
            (r.0 as int, r.1 as int) == project_spec(*self, p),
            r.0 <= SCREEN_COORD_LIMIT,
            r.1 <= SCREEN_COORD_LIMIT,
    {
        let q = self.rotate_point(p);
        let depth = q.z + self.camera.distance;
        let d = if depth < MIN_DEPTH {
            MIN_DEPTH
        } else {
            depth
        };
        proof {
            lemma_div_is_ordered_by_denominator(self.camera.scale * 10000, MIN_DEPTH as int, d as int);
        }
        let scale = self.camera.scale * FIXED_ONE / d;
        proof {
            lemma_fmul_bound(q.x as int, scale as int, ROTATED_LIMIT as int, 1_000_000);
            lemma_fmul_bound(q.y as int, scale as int, ROTATED_LIMIT as int, 1_000_000);
        }
        let vx = fixed_mul(q.x, scale);
        let vy = fixed_mul(q.y, scale);
        let sx = (vx + FIXED_ONE) * 23 + 2 * FIXED_ONE;
        let sy = (vy + FIXED_ONE) * 8 + 2 * FIXED_ONE;
        let px: u64 = if sx < 0 {
            0
        } else {
            (sx / FIXED_ONE) as u64
        };
        let py: u64 = if sy < 0 {
            0
        } else {
            (sy / FIXED_ONE) as u64
        };
        (px, py)
    }

    /// Adds `(dx, dy, dz)` to the accumulated rotation.
    pub fn rotate(&mut self, dx: i64, dy: i64, dz: i64)
        requires
            old(self).wf(),
            abs(old(self).rotation.0 + dx) <= ANGLE_LIMIT,
            abs(old(self).rotation.1 + dy) <= ANGLE_LIMIT,
            abs(old(self).rotation.2 + dz) <= ANGLE_LIMIT,
        ensures
            final(self).wf(),
            *final(self) == rotated(*old(self), dx as int, dy as int, dz as int),
    {
        let (rx, ry, rz) = self.rotation;
        self.rotation = (rx + dx, ry + dy, rz + dz);
    }

    /// Turns the camera by `pitch` and `yaw`; rendering does not read the
    /// camera's own rotation.
    pub fn rotate_camera(&mut self, pitch: i64, yaw: i64)
        requires
            i64::MIN <= old(self).camera.rotation.0 + pitch <= i64::MAX,
            i64::MIN <= old(self).camera.rotation.1 + yaw <= i64::MAX,
        ensures
            final(self).rotation == old(self).rotation,
            final(self).camera == (Camera {
                rotation: (
                    (old(self).camera.rotation.0 + pitch) as i64,
                    (old(self).camera.rotation.1 + yaw) as i64,
                    old(self).camera.rotation.2,
                ),
                ..old(self).camera
            }),
    {
        let (p, y, r) = self.camera.rotation;
        self.camera.rotation = (p + pitch, y + yaw, r);
    }

    /// Plots the segment `from`-`to` into `window`, one glyph chosen by its
    /// slope, at `line_steps` evenly spaced cells from `from` to `to`.
    pub fn draw_line(&self, window: &Window, screen: &mut Screen, from: (u64, u64), to: (u64, u64))
        requires
            window.wf(),
            old(screen).wf(),
            from.0 <= SCREEN_COORD_LIMIT,
            from.1 <= SCREEN_COORD_LIMIT,
            to.0 <= SCREEN_COORD_LIMIT,
            to.1 <= SCREEN_COORD_LIMIT,
        ensures
            final(screen).wf(),
            final(screen)@ == plot_line(
                old(screen)@,
                *window,
                (from.0 as int, from.1 as int),
                (to.0 as int, to.1 as int),
                line_steps((from.0 as int, from.1 as int), (to.0 as int, to.1 as int)),
            ),
    {
        let ghost a = (from.0 as int, from.1 as int);
        let ghost b = (to.0 as int, to.1 as int);
        let ghost g0 = screen@;
        let x0 = from.0 as i64;
        let y0 = from.1 as i64;
        let dx = to.0 as i64 - x0;
        let dy = to.1 as i64 - y0;
        let glyph = get_line_char(dx, dy);
        let ax = if dx < 0 {
            -dx
        } else {
            dx
        };
        let ay = if dy < 0 {
            -dy
        } else {
            dy
        };
        let steps = (if ax > ay {
            ax
        } else {
            ay
        }) + 1;
        let glyphs = [glyph];
        assert(glyphs@ =~= seq![line_glyph(b.0 - a.0, b.1 - a.1)]);
        let mut i: i64 = 0;
        while i < steps
            invariant
                window.wf(),
                screen.wf(),
                0 <= i <= steps,
                steps == line_steps(a, b),
                x0 == a.0,
                y0 == a.1,
                dx == b.0 - a.0,
                dy == b.1 - a.1,
                0 <= a.0 <= SCREEN_COORD_LIMIT,
                0 <= a.1 <= SCREEN_COORD_LIMIT,
                0 <= b.0 <= SCREEN_COORD_LIMIT,
                0 <= b.1 <= SCREEN_COORD_LIMIT,
                glyphs@ == seq![line_glyph(b.0 - a.0, b.1 - a.1)],
                screen@ == plot_line(g0, *window, a, b, i as int),
            decreases steps - i,
        {
            proof {
                lemma_interpolate(a.0, b.0, i as int, steps as int);
                lemma_interpolate(a.1, b.1, i as int, steps as int);
                lemma_product_fits(a.0, steps as int);
                lemma_product_fits(a.1, steps as int);
                lemma_product_fits(abs(dx as int), i as int);
                lemma_product_fits(abs(dy as int), i as int);
            }
            let n = steps as i128;
            let px = ((x0 as i128 * n + dx as i128 * i as i128) / n) as u64;
            let py = ((y0 as i128 * n + dy as i128 * i as i128) / n) as u64;
            if px < SCREEN_WIDTH as u64 && py < SCREEN_HEIGHT as u64 {
                window.print_bytes(screen, px as usize, py as usize, glyphs.as_slice());
            } else {
                let ghost gi = screen@;
                assert(window_print(gi, *window, px as int, py as int, glyphs@) =~= gi);
            }
            i = i + 1;
        }
    }

    /// Draws each segment of `object` whose two ends, before rotation, lie in
    /// front of the camera, rotated and projected into `window`.
    pub fn render_object(&self, window: &Window, screen: &mut Screen, object: &Object3D)
        requires
            self.wf(),
            window.wf(),
            object.wf(),
            old(screen).wf(),
        ensures
            final(screen).wf(),
            final(screen)@ == render_lines(old(screen)@, *self, *window, object.lines@),
    {
        let ghost g0 = screen@;
        let mut k: usize = 0;
        assert(object.lines@.take(0) =~= Seq::<Line3D>::empty());
        while k < object.lines.len()
            invariant
                self.wf(),
                window.wf(),
                object.wf(),
                screen.wf(),
                k <= object.lines@.len(),
                screen@ == render_lines(g0, *self, *window, object.lines@.take(k as int)),
            decreases object.lines@.len() - k,
        {
            let l = object.lines[k];
            let from_2d = self.project_point(l.from);
            let to_2d = self.project_point(l.to);
            if l.from.z + self.camera.distance > 0 && l.to.z + self.camera.distance > 0 {
                self.draw_line(window, screen, from_2d, to_2d);
            }
            assert(object.lines@.take(k + 1).drop_last() =~= object.lines@.take(k as int));
            k = k + 1;
        }
        assert(object.lines@.take(k as int) =~= object.lines@);
    }
}

} // verus!

verus! {

/// `r` with `(dx, dy, dz)` added to its rotation.
pub open spec fn rotated(r: Renderer3D, dx: int, dy: int, dz: int) -> Renderer3D {
    Renderer3D {
        rotation: ((r.rotation.0 + dx) as i64, (r.rotation.1 + dy) as i64, (r.rotation.2 + dz) as i64),
        ..r
    }
}

/// Rotating by (0, 0, 0) and then projecting a point gives the same screen
/// position as projecting it directly.
pub proof fn lemma_zero_rotation_keeps_projection(r: Renderer3D, p: Point3D)
    ensures
        project_spec(rotated(r, 0, 0, 0), p) == project_spec(r, p),
{
    assert(rotated(r, 0, 0, 0) == r);
}

/// A segment with an end on or behind the camera plane is never drawn:
/// rendering a list that holds it gives the same grid as the list without it.
pub proof fn lemma_hidden_segment_not_drawn(
    g: Map<Pos, Cell>,
    r: Renderer3D,
    w: Window,
    before: Seq<Line3D>,
    l: Line3D,
    after: Seq<Line3D>,
)
    requires
        !in_front(r, l),
    ensures
        render_lines(g, r, w, before + seq![l] + after) == render_lines(g, r, w, before + after),
    decreases after.len(),
{
    if after.len() == 0 {
        assert(before + seq![l] + after =~= before.push(l));
        assert(before.push(l).drop_last() =~= before);
        assert(before + after =~= before);
    } else {
        let shorter = after.drop_last();
        lemma_hidden_segment_not_drawn(g, r, w, before, l, shorter);
        assert((before + seq![l] + after).drop_last() =~= before + seq![l] + shorter);
        assert((before + after).drop_last() =~= before + shorter);
        assert((before + seq![l] + after).last() == after.last());
        assert((before + after).last() == after.last());
    }
}

} // verus!

verus! {

proof fn lemma_fmul_unit(a: int)
    ensures
        fmul(a, FIXED_ONE as int) == a,
        fmul(a, 0) == 0,
{
    assert(abs(a) * 10000 / 10000 == abs(a)) by (nonlinear_arith);
    assert(abs(a) * 0 == 0);
}

/// A rotation by (0, 0, 0) gives every point back exactly: at zero the
/// approximate cosine is 1.0 and the approximate sine is 0.
pub proof fn lemma_zero_rotation_is_identity(p: Point3D)
    ensures
        rotate_spec((0i64, 0i64, 0i64), p) == (p.x as int, p.y as int, p.z as int),
{
    assert(abs(0) % 62832 == 0);
    assert(next_term(0, 0, 6) == 0);
    assert(next_term(0, 0, 20) == 0);
    assert(next_term(0, 0, 42) == 0);
    assert(next_term(0, 0, 72) == 0);
    assert(taylor_sin(0) == 0);
    assert(abs(15708) % 62832 == 15708);
    assert(15708 * 15708 == 246741264);
    assert(24674 * 15708 == 387579192);
    assert(next_term(15708, 15708, 6) == 6459);
    assert(6459 * 15708 == 101457972);
    assert(10145 * 15708 == 159357660);
    assert(next_term(6459, 15708, 20) == 796);
    assert(796 * 15708 == 12503568);
    assert(1250 * 15708 == 19635000);
    assert(next_term(796, 15708, 42) == 46);
    assert(46 * 15708 == 722568);
    assert(72 * 15708 == 1130976);
    assert(next_term(46, 15708, 72) == 1);
    assert(taylor_sin(15708) == 10000);
    assert(taylor_cos(0) == 10000);
    lemma_fmul_unit(p.x as int);
    lemma_fmul_unit(p.y as int);
    lemma_fmul_unit(p.z as int);
    lemma_fmul_unit(0);
    assert(fmul(0, 0) == 0);
    assert(fmul(0, 10000) == 0);
}

} // verus!
