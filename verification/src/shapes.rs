//! Shape primitives: declarative descriptions convertible into a [`Path`].

use vstd::prelude::*;

use crate::path::{
    contours_identical, paths_identical, signed_area_2x, shoelace_from, Contour, Path, PathPoint,
    Winding,
};

verus! {

/// A 2D vector on the integer coordinate grid, used for shape parameters.
#[derive(Clone, Copy, Debug, PartialEq, Eq, Structural)]
pub struct IVec2 {
    pub x: i32,
    pub y: i32,
}

impl IVec2 {
    /// The zero vector.
    pub fn zero() -> (v: Self)
        ensures
            v.x == 0,
            v.y == 0,
    {
        IVec2 { x: 0, y: 0 }
    }

    /// The all-ones vector.
    pub fn one() -> (v: Self)
        ensures
            v.x == 1,
            v.y == 1,
    {
        IVec2 { x: 1, y: 1 }
    }
}

/// Defines where the origin, or pivot, of a `Rectangle` should be
/// positioned relative to its bounding box.
#[derive(Clone, Copy, Debug, PartialEq, Eq, Structural)]
pub enum RectangleOrigin {
    Center,
    BottomLeft,
    BottomRight,
    TopRight,
    TopLeft,
}

impl Default for RectangleOrigin {
    fn default() -> (r: Self)
        ensures
            r == RectangleOrigin::Center,
    {
        RectangleOrigin::Center
    }
}

/// Half of `v`, rounded toward negative infinity.
pub open spec fn half_down(v: int) -> int {
    v / 2
}

/// The x coordinate of the point a rectangle's contour is anchored at, so
/// that the chosen pivot maps to local `(0, 0)`.  A centered pivot sits at
/// the midpoint of the bounding box, rounded down when the width is odd.
pub open spec fn rect_origin_x(o: RectangleOrigin, width: int) -> int {
    match o {
        RectangleOrigin::Center => -half_down(width),
        RectangleOrigin::BottomLeft => 0,
        RectangleOrigin::BottomRight => -width,
        RectangleOrigin::TopRight => -width,
        RectangleOrigin::TopLeft => 0,
    }
}

/// The y coordinate of the point a rectangle's contour is anchored at.
pub open spec fn rect_origin_y(o: RectangleOrigin, height: int) -> int {
    match o {
        RectangleOrigin::Center => -half_down(height),
        RectangleOrigin::BottomLeft => 0,
        RectangleOrigin::BottomRight => 0,
        RectangleOrigin::TopRight => -height,
        RectangleOrigin::TopLeft => -height,
    }
}

/// Half of `v`, rounded toward negative infinity.
fn half_of(v: i32) -> (r: i64)
    ensures
        r == half_down(v as int),
{
    if v >= 0 {
        (v / 2) as i64
    } else {
        let m: i64 = -(v as i64);
        let q: i64 = m / 2;
        if m % 2 == 0 {
            -q
        } else {
            -q - 1
        }
    }
}

impl RectangleOrigin {
    /// The anchor point of a rectangle's contour for this pivot choice:
    /// `(rect_origin_x, rect_origin_y)` of the given extents.
    pub fn anchor(&self, width: i32, height: i32) -> (p: PathPoint)
        ensures
            p.x == rect_origin_x(*self, width as int),
            p.y == rect_origin_y(*self, height as int),
    {
        match self {
            RectangleOrigin::Center => PathPoint { x: -half_of(width), y: -half_of(height) },
            RectangleOrigin::BottomLeft => PathPoint { x: 0, y: 0 },
            RectangleOrigin::BottomRight => PathPoint { x: -(width as i64), y: 0 },
            RectangleOrigin::TopRight => PathPoint {
                x: -(width as i64),
                y: -(height as i64),
            },
            RectangleOrigin::TopLeft => PathPoint { x: 0, y: -(height as i64) },
        }
    }
}

/// An axis-aligned rectangle of the given extents, anchored by `origin`.
#[derive(Clone, Copy, Debug, PartialEq, Eq, Structural)]
pub struct Rectangle {
    pub width: i32,
    pub height: i32,
    pub origin: RectangleOrigin,
}

impl Default for Rectangle {
    /// The unit rectangle with a centered pivot.
    fn default() -> (r: Self)
        ensures
            r.width == 1,
            r.height == 1,
            r.origin == RectangleOrigin::Center,
    {
        Rectangle { width: 1, height: 1, origin: RectangleOrigin::Center }
    }
}

/// The four corners of a rectangle's contour: starting at the anchor
/// `(ox, oy)` and walking the bounding box counter-clockwise, the order
/// that makes the winding positive for positive extents.
pub open spec fn rect_corners(ps: Seq<PathPoint>, ox: int, oy: int, w: int, h: int) -> bool {
    &&& ps.len() == 4
    &&& ps[0].x == ox && ps[0].y == oy
    &&& ps[1].x == ox + w && ps[1].y == oy
    &&& ps[2].x == ox + w && ps[2].y == oy + h
    &&& ps[3].x == ox && ps[3].y == oy + h
}

/// What `Rectangle::generate_path` returns: a single closed 4-vertex
/// contour anchored at the pivot-dependent origin point.
pub open spec fn rectangle_path(r: Rectangle, p: Path) -> bool {
    &&& p.contours@.len() == 1
    &&& p.contours@[0] matches Contour::Polyline { points, closed }
    &&& closed == true
    &&& rect_corners(
        points@,
        rect_origin_x(r.origin, r.width as int),
        rect_origin_y(r.origin, r.height as int),
        r.width as int,
        r.height as int,
    )
}

impl Rectangle {
    /// Produce this rectangle's path: one closed, positively wound
    /// rectangular contour of `width` by `height`, anchored so that the
    /// chosen pivot maps to local `(0, 0)`.  Degenerate extents (zero or
    /// negative) are passed through, not rejected.
    pub fn generate_path(&self) -> (p: Path)
        ensures
            rectangle_path(*self, p),
    {
        let anchor = self.origin.anchor(self.width, self.height);
        let w: i64 = self.width as i64;
        let h: i64 = self.height as i64;
        let points = vec![
            PathPoint { x: anchor.x, y: anchor.y },
            PathPoint { x: anchor.x + w, y: anchor.y },
            PathPoint { x: anchor.x + w, y: anchor.y + h },
            PathPoint { x: anchor.x, y: anchor.y + h },
        ];
        Path { contours: vec![Contour::Polyline { points, closed: true }] }
    }
}

/// The shoelace sum of a rectangle's four corners is twice the product of
/// its extents, whatever the anchor: the contour encloses the rectangle's
/// area with positive orientation.
pub proof fn lemma_rect_corners_area(ps: Seq<PathPoint>, ox: int, oy: int, w: int, h: int)
    requires
        rect_corners(ps, ox, oy, w, h),
    ensures
        signed_area_2x(ps) == 2 * w * h,
{
    reveal_with_fuel(shoelace_from, 6);
    assert(signed_area_2x(ps) == (ps[0].x * ps[1].y - ps[1].x * ps[0].y) + (ps[1].x * ps[2].y
        - ps[2].x * ps[1].y) + (ps[2].x * ps[3].y - ps[3].x * ps[2].y) + (ps[3].x * ps[0].y
        - ps[0].x * ps[3].y));
    assert((ox * oy - (ox + w) * oy) + ((ox + w) * (oy + h) - (ox + w) * oy) + ((ox + w) * (oy + h)
        - ox * (oy + h)) + (ox * oy - ox * (oy + h)) == 2 * w * h) by (nonlinear_arith);
}

/// Every rectangle with positive extents generates a closed contour of
/// exactly 4 vertices with positive winding, whichever of the five pivot
/// choices anchors it.
pub proof fn lemma_rectangle_path_positively_wound(r: Rectangle, p: Path)
    requires
        rectangle_path(r, p),
        r.width > 0,
        r.height > 0,
    ensures
        p.contours@[0].points_spec().len() == 4,
        p.contours@[0].is_closed(),
        signed_area_2x(p.contours@[0].points_spec()) == 2 * r.width * r.height,
        signed_area_2x(p.contours@[0].points_spec()) > 0,
{
    lemma_rect_corners_area(
        p.contours@[0].points_spec(),
        rect_origin_x(r.origin, r.width as int),
        rect_origin_y(r.origin, r.height as int),
        r.width as int,
        r.height as int,
    );
    assert(2 * r.width * r.height > 0) by (nonlinear_arith)
        requires
            r.width > 0,
            r.height > 0,
    ;
}

/// Path generation is deterministic: any two paths a rectangle's contract
/// allows for the same parameters are geometrically identical, so calling
/// the generator twice yields the same vertices and the same winding.
pub proof fn lemma_rectangle_path_unique(r: Rectangle, p1: Path, p2: Path)
    requires
        rectangle_path(r, p1),
        rectangle_path(r, p2),
    ensures
        paths_identical(p1, p2),
{
    let ca = p1.contours@[0];
    let cb = p2.contours@[0];
    assert(ca.points_spec() =~= cb.points_spec());
    assert(contours_identical(ca, cb));
}

/// A circle of the given radius, offset from the local origin by `center`.
#[derive(Clone, Copy, Debug, PartialEq, Eq, Structural)]
pub struct Circle {
    /// Distance of the border of the circle from the center.
    pub radius: i32,
    /// The position of the center of the circle, relative to the local
    /// origin the path is anchored at.
    pub center: IVec2,
}

impl Default for Circle {
    /// The unit circle around the local origin.
    fn default() -> (c: Self)
        ensures
            c.radius == 1,
            c.center.x == 0,
            c.center.y == 0,
    {
        Circle { radius: 1, center: IVec2::zero() }
    }
}

/// What `Circle::generate_path` returns: a single closed, positively wound
/// elliptical primitive with both radii equal to the circle's radius.
pub open spec fn circle_path(c: Circle, p: Path) -> bool {
    &&& p.contours@.len() == 1
    &&& p.contours@[0] matches Contour::Ellipse { center, rx, ry, winding }
    &&& center.x == c.center.x
    &&& center.y == c.center.y
    &&& rx == c.radius
    &&& ry == c.radius
    &&& winding == Winding::Positive
}

impl Circle {
    /// Produce this circle's path: one closed, positively wound circular
    /// contour of the given radius around `center`.  A zero or negative
    /// radius is passed through, not rejected.
    pub fn generate_path(&self) -> (p: Path)
        ensures
            circle_path(*self, p),
    {
        let contour = Contour::Ellipse {
            center: PathPoint { x: self.center.x as i64, y: self.center.y as i64 },
            rx: self.radius as i64,
            ry: self.radius as i64,
            winding: Winding::Positive,
        };
        Path { contours: vec![contour] }
    }
}

/// Path generation is deterministic: any two paths a circle's contract
/// allows for the same parameters are geometrically identical.
pub proof fn lemma_circle_path_unique(c: Circle, p1: Path, p2: Path)
    requires
        circle_path(c, p1),
        circle_path(c, p2),
    ensures
        paths_identical(p1, p2),
{
}

/// An axis-aligned ellipse with one radius per axis, offset from the local
/// origin by `center`.
#[derive(Clone, Copy, Debug, PartialEq, Eq, Structural)]
pub struct Ellipse {
    /// The two radii: `radii.x` scales the horizontal axis, `radii.y` the
    /// vertical one.
    pub radii: IVec2,
    /// The position of the center of the ellipse, relative to the local
    /// origin the path is anchored at.
    pub center: IVec2,
}

impl Default for Ellipse {
    /// The unit circle around the local origin.
    fn default() -> (e: Self)
        ensures
            e.radii.x == 1,
            e.radii.y == 1,
            e.center.x == 0,
            e.center.y == 0,
    {
        Ellipse { radii: IVec2::one(), center: IVec2::zero() }
    }
}

/// What `Ellipse::generate_path` returns: a single closed, positively
/// wound elliptical primitive with the shape's two radii and no rotation.
pub open spec fn ellipse_path(e: Ellipse, p: Path) -> bool {
    &&& p.contours@.len() == 1
    &&& p.contours@[0] matches Contour::Ellipse { center, rx, ry, winding }
    &&& center.x == e.center.x
    &&& center.y == e.center.y
    &&& rx == e.radii.x
    &&& ry == e.radii.y
    &&& winding == Winding::Positive
}

impl Ellipse {
    /// Produce this ellipse's path: one closed, positively wound
    /// elliptical contour using the two radii as independent axis scales,
    /// centered at `center`.  Degenerate radii are passed through.
    pub fn generate_path(&self) -> (p: Path)
        ensures
            ellipse_path(*self, p),
    {
        let contour = Contour::Ellipse {
            center: PathPoint { x: self.center.x as i64, y: self.center.y as i64 },
            rx: self.radii.x as i64,
            ry: self.radii.y as i64,
            winding: Winding::Positive,
        };
        Path { contours: vec![contour] }
    }
}

/// Path generation is deterministic: any two paths an ellipse's contract
/// allows for the same parameters are geometrically identical.
pub proof fn lemma_ellipse_path_unique(e: Ellipse, p1: Path, p2: Path)
    requires
        ellipse_path(e, p1),
        ellipse_path(e, p2),
    ensures
        paths_identical(p1, p2),
{
}

/// A polygon or polyline visiting `points` in order; `closed` tells
/// whether an implicit final edge connects the last point back to the
/// first.
#[derive(Debug, PartialEq)]
pub struct Polygon {
    pub points: Vec<IVec2>,
    pub closed: bool,
}

impl Default for Polygon {
    /// The empty closed polygon.
    fn default() -> (s: Self)
        ensures
            s.points@.len() == 0,
            s.closed == true,
    {
        Polygon { points: Vec::new(), closed: true }
    }
}

/// What `Polygon::generate_path` returns: a single polyline contour
/// visiting the polygon's points in order and keeping its `closed` flag,
/// so a closed polygon is fillable and an open one is a stroke.
pub open spec fn polygon_path(s: Polygon, p: Path) -> bool {
    &&& p.contours@.len() == 1
    &&& p.contours@[0] matches Contour::Polyline { points, closed }
    &&& closed == s.closed
    &&& points@.len() == s.points@.len()
    &&& forall|i: int|
        0 <= i < s.points@.len() ==> (#[trigger] points@[i]).x == s.points@[i].x
            && points@[i].y == s.points@[i].y
}

/// Path generation is deterministic: any two paths a polygon's contract
/// allows for the same points and the same closed flag are geometrically
/// identical.
pub proof fn lemma_polygon_path_unique(s: Polygon, p1: Path, p2: Path)
    requires
        polygon_path(s, p1),
        polygon_path(s, p2),
    ensures
        paths_identical(p1, p2),
{
    let ca = p1.contours@[0];
    let cb = p2.contours@[0];
    assert(ca.points_spec() =~= cb.points_spec());
    assert(contours_identical(ca, cb));
}

impl Polygon {
    /// Produce this polygon's path: one polyline contour visiting the
    /// points in insertion order.  When `closed` is true the contour is
    /// fillable, with an implicit edge from the last point back to the
    /// first; when false it is an open stroke.  Fewer than 3 points are
    /// passed through for the downstream tessellator to handle.
    pub fn generate_path(&self) -> (p: Path)
        ensures
            polygon_path(*self, p),
    {
        let mut points: Vec<PathPoint> = Vec::new();
        let mut i: usize = 0;
        while i < self.points.len()
            invariant
                i <= self.points@.len(),
                points@.len() == i,
                forall|j: int|
                    0 <= j < i ==> (#[trigger] points@[j]).x == self.points@[j].x
                        && points@[j].y == self.points@[j].y,
            decreases self.points@.len() - i,
        {
            let q = self.points[i];
            points.push(PathPoint { x: q.x as i64, y: q.y as i64 });
            i = i + 1;
        }
        Path { contours: vec![Contour::Polyline { points, closed: self.closed }] }
    }
}

} // verus!

