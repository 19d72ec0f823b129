//! Integer pixel geometry: points, axis-aligned rectangles, the path shape's
//! point-generation rule, tight bounds, and point-in-polygon coverage used by
//! hit-testing.
use vstd::prelude::*;
use crate::MAX_COORD;
use crate::MAX_PIXELS_PER_POINT;

verus! {

/// Bound on any coordinate of a generated vertex: positions and scales are
/// capped at `MAX_COORD` and the shape rule adds offsets no larger than
/// `400 * MAX_PIXELS_PER_POINT`, so generated vertices stay well inside this.
pub const MAX_POINT_COORD: i64 = 4000000000000;

/// A point (or extent) in pixel space.
#[derive(Clone, Copy, Debug, PartialEq, Eq, Structural)]
pub struct Point {
    pub x: i64,
    pub y: i64,
}

/// An axis-aligned rectangle given by its extreme coordinates.
#[derive(Clone, Copy, Debug, PartialEq, Eq, Structural)]
pub struct Rect {
    pub min_x: i64,
    pub min_y: i64,
    pub max_x: i64,
    pub max_y: i64,
}

pub open spec fn coord_ok(v: int) -> bool {
    -MAX_COORD <= v <= MAX_COORD
}

pub open spec fn point_ok(p: Point) -> bool {
    coord_ok(p.x as int) && coord_ok(p.y as int)
}

pub open spec fn vertex_coord_ok(v: int) -> bool {
    -MAX_POINT_COORD <= v <= MAX_POINT_COORD
}

pub open spec fn vertex_ok(p: Point) -> bool {
    vertex_coord_ok(p.x as int) && vertex_coord_ok(p.y as int)
}

pub open spec fn ppp_ok(k: u32) -> bool {
    1 <= k <= MAX_PIXELS_PER_POINT
}

/// The path shape's point-generation rule, a pure function of position,
/// scale and pixels-per-point. With `(x, y)` the position, `(sx, sy)` the
/// scale and `k` the pixel ratio, the polygon is
/// `(x, y), (x+sx, y+sy+200k), (x+sx, y+sy+400k), (x-200k, y+200k)`,
/// so for a non-negative scale the tight bounds are
/// `min = (x - 200k, y)` and `max = (x + sx, y + sy + 400k)`.
pub open spec fn path_points(position: Point, scale: Point, k: u32) -> Seq<Point>
    recommends
        point_ok(position),
        point_ok(scale),
        ppp_ok(k),
{
    seq![
        Point { x: position.x, y: position.y },
        Point {
            x: (position.x + scale.x) as i64,
            y: (position.y + scale.y + 200 * k) as i64,
        },
        Point {
            x: (position.x + scale.x) as i64,
            y: (position.y + scale.y + 400 * k) as i64,
        },
        Point { x: (position.x - 200 * k) as i64, y: (position.y + 200 * k) as i64 },
    ]
}

pub open spec fn min_i64(a: i64, b: i64) -> i64 {
    if a <= b {
        a
    } else {
        b
    }
}

pub open spec fn max_i64(a: i64, b: i64) -> i64 {
    if a <= b {
        b
    } else {
        a
    }
}

/// Tight axis-aligned bounds of a non-empty point sequence.
pub open spec fn bounds_of(points: Seq<Point>) -> Rect
    recommends
        points.len() >= 1,
    decreases points.len(),
{
    if points.len() <= 1 {
        Rect {
            min_x: points[0].x,
            min_y: points[0].y,
            max_x: points[0].x,
            max_y: points[0].y,
        }
    } else {
        let r = bounds_of(points.drop_last());
        let p = points.last();
        Rect {
            min_x: min_i64(r.min_x, p.x),
            min_y: min_i64(r.min_y, p.y),
            max_x: max_i64(r.max_x, p.x),
            max_y: max_i64(r.max_y, p.y),
        }
    }
}

pub open spec fn rect_contains(r: Rect, p: Point) -> bool {
    r.min_x <= p.x <= r.max_x && r.min_y <= p.y <= r.max_y
}

/// Twice the signed area of the triangle `(o, a, b)`; its sign tells on which
/// side of the directed edge `o -> a` the point `b` lies.
pub open spec fn cross(o: Point, a: Point, b: Point) -> int {
    (a.x - o.x) * (b.y - o.y) - (a.y - o.y) * (b.x - o.x)
}

pub open spec fn edge_cross(points: Seq<Point>, i: int, p: Point) -> int
    recommends
        points.len() >= 1,
        0 <= i < points.len(),
{
    cross(points[i], points[if i + 1 == points.len() { 0int } else { i + 1 }], p)
}

pub open spec fn all_edges_non_neg(points: Seq<Point>, p: Point) -> bool {
    forall|i: int| 0 <= i < points.len() ==> #[trigger] edge_cross(points, i, p) >= 0
}

pub open spec fn all_edges_non_pos(points: Seq<Point>, p: Point) -> bool {
    forall|i: int| 0 <= i < points.len() ==> #[trigger] edge_cross(points, i, p) <= 0
}

/// A polygon covers a point when the point lies inside its bounds and on one
/// consistent side (or on top) of every directed edge. For degenerate
/// (zero-area) polygons every edge test is zero and coverage collapses to
/// the bounds test, which is then a point or a line: still well defined.
pub open spec fn covers(points: Seq<Point>, p: Point) -> bool {
    points.len() >= 3 && rect_contains(bounds_of(points), p) && (all_edges_non_neg(points, p)
        || all_edges_non_pos(points, p))
}

/// Every vertex the path rule generates from bounded inputs is itself
/// bounded, so hit-testing arithmetic on cached vertices cannot overflow.
pub proof fn lemma_path_points_bounded(position: Point, scale: Point, k: u32)
    requires
        point_ok(position),
        point_ok(scale),
        ppp_ok(k),
    ensures
        forall|i: int|
            0 <= i < path_points(position, scale, k).len() ==> vertex_ok(
                #[trigger] path_points(position, scale, k)[i],
            ),
{
    let pts = path_points(position, scale, k);
    assert(vertex_ok(pts[0]));
    assert(vertex_ok(pts[1]));
    assert(vertex_ok(pts[2]));
    assert(vertex_ok(pts[3]));
}

/// Law: the point rule is injective in the transform — two snapshots that
/// differ in position or scale generate different vertex lists, so any
/// actual change of the transform changes the tessellated geometry.
pub proof fn lemma_path_points_injective(p1: Point, s1: Point, p2: Point, s2: Point, k: u32)
    requires
        point_ok(p1),
        point_ok(s1),
        point_ok(p2),
        point_ok(s2),
        ppp_ok(k),
        p1 != p2 || s1 != s2,
    ensures
        path_points(p1, s1, k) != path_points(p2, s2, k),
{
    let a = path_points(p1, s1, k);
    let b = path_points(p2, s2, k);
    if a == b {
        assert(a[0] == b[0]);
        assert(a[1] == b[1]);
        assert(p1 == p2);
        assert(a[1].x as int == p1.x + s1.x);
        assert(b[1].x as int == p2.x + s2.x);
        assert(a[1].y as int == p1.y + s1.y + 200 * k);
        assert(b[1].y as int == p2.y + s2.y + 200 * k);
        assert(s1 == s2);
    }
}

/// Builds the path shape's vertex list for the given transform snapshot.
pub fn make_path_points(position: Point, scale: Point, k: u32) -> (r: Vec<Point>)
    requires
        point_ok(position),
        point_ok(scale),
        ppp_ok(k),
    ensures
        r@ == path_points(position, scale, k),
        r@.len() == 4,
        forall|i: int| 0 <= i < r@.len() ==> vertex_ok(#[trigger] r@[i]),
{
    let p0 = Point { x: position.x, y: position.y };
    let p1 = Point { x: position.x + scale.x, y: position.y + scale.y + 200 * (k as i64) };
    let p2 = Point { x: position.x + scale.x, y: position.y + scale.y + 400 * (k as i64) };
    let p3 = Point { x: position.x - 200 * (k as i64), y: position.y + 200 * (k as i64) };
    let mut r: Vec<Point> = Vec::new();
    r.push(p0);
    r.push(p1);
    r.push(p2);
    r.push(p3);
    proof {
        assert(r@ =~= path_points(position, scale, k));
    }
    r
}

/// Computes the tight axis-aligned bounds of a non-empty vertex list.
pub fn compute_bounds(points: &Vec<Point>) -> (r: Rect)
    requires
        points@.len() >= 1,
    ensures
        r == bounds_of(points@),
{
    let mut min_x = points[0].x;
    let mut min_y = points[0].y;
    let mut max_x = points[0].x;
    let mut max_y = points[0].y;
    let mut i: usize = 1;
    while i < points.len()
        invariant
            1 <= i <= points@.len(),
            (Rect { min_x, min_y, max_x, max_y }) == bounds_of(points@.take(i as int)),
        decreases points@.len() - i,
    {
        let p = points[i];
        if p.x < min_x {
            min_x = p.x;
        }
        if p.y < min_y {
            min_y = p.y;
        }
        if p.x > max_x {
            max_x = p.x;
        }
        if p.y > max_y {
            max_y = p.y;
        }
        proof {
            assert(points@.take(i + 1).drop_last() =~= points@.take(i as int));
            assert(points@.take(i + 1).last() == points@[i as int]);
        }
        i = i + 1;
    }
    proof {
        assert(points@.take(points@.len() as int) =~= points@);
    }
    Rect { min_x, min_y, max_x, max_y }
}

/// Evaluates one edge's cross product exactly, using 128-bit arithmetic so
/// the products of bounded 64-bit coordinates cannot overflow.
fn edge_cross_exec(o: Point, a: Point, b: Point) -> (r: i128)
    requires
        vertex_ok(o),
        vertex_ok(a),
        vertex_ok(b),
    ensures
        r as int == cross(o, a, b),
{
    let ax = a.x as i128 - o.x as i128;
    let ay = a.y as i128 - o.y as i128;
    let bx = b.x as i128 - o.x as i128;
    let by = b.y as i128 - o.y as i128;
    proof {
        assert(ax * by - ay * bx == cross(o, a, b)) by (nonlinear_arith)
            requires
                ax == a.x - o.x,
                ay == a.y - o.y,
                bx == b.x - o.x,
                by == b.y - o.y,
        ;
        assert(-(0x80000000000000000000000000000000int) <= ax * by
            <= 0x7fffffffffffffffffffffffffffffff) by (nonlinear_arith)
            requires
                -8000000000000 <= ax <= 8000000000000,
                -8000000000000 <= by <= 8000000000000,
        ;
        assert(-(0x80000000000000000000000000000000int) <= ay * bx
            <= 0x7fffffffffffffffffffffffffffffff) by (nonlinear_arith)
            requires
                -8000000000000 <= ay <= 8000000000000,
                -8000000000000 <= bx <= 8000000000000,
        ;
        assert(ax * by <= 64000000000000000000000000 && ax * by >= -64000000000000000000000000)
            by (nonlinear_arith)
            requires
                -8000000000000 <= ax <= 8000000000000,
                -8000000000000 <= by <= 8000000000000,
        ;
        assert(ay * bx <= 64000000000000000000000000 && ay * bx >= -64000000000000000000000000)
            by (nonlinear_arith)
            requires
                -8000000000000 <= ay <= 8000000000000,
                -8000000000000 <= bx <= 8000000000000,
        ;
    }
    ax * by - ay * bx
}

/// Decides whether the polygon given by `points` covers `p`, exactly as the
/// `covers` predicate states it.
pub fn covers_point(points: &Vec<Point>, p: Point) -> (r: bool)
    requires
        forall|i: int| 0 <= i < points@.len() ==> vertex_ok(#[trigger] points@[i]),
        vertex_ok(p),
    ensures
        r == covers(points@, p),
{
    if points.len() < 3 {
        return false;
    }
    let bounds = compute_bounds(points);
    if !(bounds.min_x <= p.x && p.x <= bounds.max_x && bounds.min_y <= p.y && p.y
        <= bounds.max_y) {
        return false;
    }
    let mut saw_neg = false;
    let mut saw_pos = false;
    let n = points.len();
    let mut i: usize = 0;
    while i < n
        invariant
            0 <= i <= n,
            n == points@.len(),
            n >= 3,
            forall|j: int| 0 <= j < points@.len() ==> vertex_ok(#[trigger] points@[j]),
            vertex_ok(p),
            saw_neg == exists|j: int|
                0 <= j < i && #[trigger] edge_cross(points@, j, p) < 0,
            saw_pos == exists|j: int|
                0 <= j < i && #[trigger] edge_cross(points@, j, p) > 0,
        decreases n - i,
    {
        let next: usize = if i + 1 == n {
            0
        } else {
            i + 1
        };
        let c = edge_cross_exec(points[i], points[next], p);
        proof {
            assert(c as int == edge_cross(points@, i as int, p));
        }
        if c < 0 {
            saw_neg = true;
        }
        if c > 0 {
            saw_pos = true;
        }
        i = i + 1;
    }
    proof {
        if !saw_neg {
            assert(all_edges_non_neg(points@, p));
        }
        if !saw_pos {
            assert(all_edges_non_pos(points@, p));
        }
        if saw_neg && saw_pos {
            assert(!all_edges_non_neg(points@, p));
            assert(!all_edges_non_pos(points@, p));
        }
    }
    !saw_neg || !saw_pos
}

} // verus!
