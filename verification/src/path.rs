//! The path model: contours built from exact integer-coordinate primitives.
//!
//! A [`Path`] is an ordered collection of [`Contour`]s.  A contour is either
//! a polyline (an open or closed chain of straight edges) or an elliptical
//! primitive that a downstream tessellator approximates on its own terms.

use vstd::prelude::*;

verus! {

/// A point on a path, on the path's integer coordinate grid.
#[derive(Clone, Copy, Debug, PartialEq, Eq, Structural)]
pub struct PathPoint {
    pub x: i64,
    pub y: i64,
}

/// The rotational direction of a primitive contour: positive means
/// counter-clockwise, the convention for fillable outlines.
#[derive(Clone, Copy, Debug, PartialEq, Eq, Structural)]
pub enum Winding {
    Positive,
    Negative,
}

/// One contour of a path.
///
/// A `Polyline` visits its points in order; when `closed` is true an
/// implicit final edge connects the last point back to the first and the
/// contour is fillable, otherwise it is an open stroke.  An `Ellipse` is a
/// closed elliptical primitive kept exact here; approximating it with
/// edges is the downstream tessellator's concern.
#[derive(Clone, Debug, PartialEq)]
pub enum Contour {
    Polyline { points: Vec<PathPoint>, closed: bool },
    Ellipse { center: PathPoint, rx: i64, ry: i64, winding: Winding },
}

/// An ordered collection of contours describing a 2D outline.
#[derive(Clone, Debug, PartialEq)]
pub struct Path {
    pub contours: Vec<Contour>,
}

impl Contour {
    /// The vertices a contour spells out itself: the points of a polyline.
    /// An elliptical primitive carries no explicit vertices.
    pub open spec fn points_spec(self) -> Seq<PathPoint> {
        match self {
            Contour::Polyline { points, .. } => points@,
            Contour::Ellipse { .. } => Seq::empty(),
        }
    }

    /// Whether the contour is fillable: a closed polyline, or an
    /// elliptical primitive, which is closed by construction.
    pub open spec fn is_closed(self) -> bool {
        match self {
            Contour::Polyline { closed, .. } => closed,
            Contour::Ellipse { .. } => true,
        }
    }
}

/// Twice the cross product term one edge `a -> b` contributes to the
/// signed area of a contour.
pub open spec fn edge_cross(a: PathPoint, b: PathPoint) -> int {
    a.x * b.y - b.x * a.y
}

/// The shoelace sum of the edges from index `i` on, each point paired with
/// its cyclic successor.
pub open spec fn shoelace_from(ps: Seq<PathPoint>, i: int) -> int
    decreases ps.len() - i,
{
    if i < 0 || i >= ps.len() {
        0
    } else {
        let j = if i + 1 == ps.len() { 0int } else { i + 1 };
        edge_cross(ps[i], ps[j]) + shoelace_from(ps, i + 1)
    }
}

/// Twice the signed area a closed polyline encloses.  Positive means the
/// points run counter-clockwise: the contour is positively wound.
pub open spec fn signed_area_2x(ps: Seq<PathPoint>) -> int {
    shoelace_from(ps, 0)
}

/// The edges a polyline over `ps` consists of: each point joined to its
/// successor, and, when the polyline is closed, one implicit final edge
/// from the last point back to the first.
pub open spec fn polyline_edges(ps: Seq<PathPoint>, closed: bool) -> Seq<(PathPoint, PathPoint)> {
    let chain = if ps.len() == 0 {
        Seq::<(PathPoint, PathPoint)>::empty()
    } else {
        Seq::new((ps.len() - 1) as nat, |i: int| (ps[i], ps[i + 1]))
    };
    if closed && ps.len() >= 2 {
        chain.push((ps.last(), ps.first()))
    } else {
        chain
    }
}

/// Closing a polyline adds exactly one edge, the implicit one from the
/// last point back to the first; the explicit edges are untouched.  An
/// open polyline has no such edge.
pub proof fn lemma_closing_edge(ps: Seq<PathPoint>)
    requires
        ps.len() >= 2,
    ensures
        polyline_edges(ps, false).len() == ps.len() - 1,
        polyline_edges(ps, true).len() == ps.len(),
        polyline_edges(ps, true).last() == (ps.last(), ps.first()),
        forall|i: int|
            0 <= i < ps.len() - 1 ==> #[trigger] polyline_edges(ps, true)[i] == polyline_edges(
                ps,
                false,
            )[i],
{
}

/// Two contours are geometrically identical when they are the same kind of
/// primitive with the same vertices, the same closedness and the same
/// orientation.
pub open spec fn contours_identical(a: Contour, b: Contour) -> bool {
    match (a, b) {
        (
            Contour::Polyline { points: pa, closed: ca },
            Contour::Polyline { points: pb, closed: cb },
        ) => pa@ == pb@ && ca == cb,
        (
            Contour::Ellipse { center: ca, rx: rxa, ry: rya, winding: wa },
            Contour::Ellipse { center: cb, rx: rxb, ry: ryb, winding: wb },
        ) => ca == cb && rxa == rxb && rya == ryb && wa == wb,
        _ => false,
    }
}

/// Two paths are geometrically identical when they hold identical contours
/// in the same order.
pub open spec fn paths_identical(a: Path, b: Path) -> bool {
    &&& a.contours@.len() == b.contours@.len()
    &&& forall|i: int|
        0 <= i < a.contours@.len() ==> contours_identical(
            #[trigger] a.contours@[i],
            b.contours@[i],
        )
}

} // verus!
