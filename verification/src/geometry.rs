//! Points, polygons and bounding boxes in image pixel space.
//!
//! The service describes a detected region as an ordered quadrilateral:
//! vertex 0 top-left, 1 top-right, 2 bottom-right, 3 bottom-left. The flat
//! annotation schema always carries both coordinates of a vertex
//! ([`Point`]); the hierarchical document schema may omit either coordinate
//! ([`OptPoint`]). The two are kept distinct on purpose: collapsing them
//! would hide legitimate absence in the document tree.

use vstd::prelude::*;

verus! {

/// An integer point in image pixel space. Pure value, no identity beyond
/// its coordinates.
#[derive(Debug, Clone, Copy, PartialEq, Eq, Structural)]
pub struct Point {
    pub x: i64,
    pub y: i64,
}

/// A vertex of the hierarchical schema, either coordinate of which the
/// service may omit. Absence is meaningful and is kept, not defaulted.
#[derive(Debug, Clone, Copy, PartialEq, Eq)]
pub struct OptPoint {
    pub x: Option<i64>,
    pub y: Option<i64>,
}

/// The bounding polygon of a flat annotation: vertices with required
/// coordinates.
#[derive(Debug, PartialEq, Eq)]
pub struct Polygon {
    pub vertices: Vec<Point>,
}

impl View for Polygon {
    type V = Seq<Point>;

    open spec fn view(&self) -> Seq<Point> {
        self.vertices@
    }
}

/// The bounding box of a node of the document tree: vertices whose
/// coordinates may be absent.
#[derive(Debug, PartialEq, Eq)]
pub struct BoundingBox {
    pub vertices: Vec<OptPoint>,
}

impl View for BoundingBox {
    type V = Seq<OptPoint>;

    open spec fn view(&self) -> Seq<OptPoint> {
        self.vertices@
    }
}

impl BoundingBox {
    /// A box of the shape the service promises: exactly four vertices.
    pub open spec fn wf(self) -> bool {
        self@.len() == 4
    }

    /// Both coordinates of vertex `i` are present.
    pub open spec fn vertex_complete(self, i: int) -> bool {
        &&& self@[i].x is Some
        &&& self@[i].y is Some
    }

    /// The top-left corner of the box: vertex 1 of the quadrilateral.
    pub open spec fn spec_left_top(self) -> Point {
        Point { x: self@[1].x->0, y: self@[1].y->0 }
    }

    /// Horizontal extent: vertex 3's x minus vertex 1's x, in unbounded
    /// integer arithmetic.
    pub open spec fn spec_width(self) -> int {
        self@[3].x->0 - self@[1].x->0
    }

    /// Vertical extent: vertex 3's y minus vertex 1's y, in unbounded
    /// integer arithmetic.
    pub open spec fn spec_height(self) -> int {
        self@[3].y->0 - self@[1].y->0
    }

    /// The top-left corner of the box as the service orients it: vertex 1
    /// of the quadrilateral.
    pub fn left_top(&self) -> (r: Point)
        requires
            self.wf(),
            self.vertex_complete(1),
        ensures
            r == self.spec_left_top(),
    {
        Point { x: self.vertices[1].x.unwrap(), y: self.vertices[1].y.unwrap() }
    }

    /// Derived width. Negative when the service returns a rotated or
    /// reordered quadrilateral; such input is surfaced, not clamped.
    pub fn width(&self) -> (r: i64)
        requires
            self.wf(),
            self@[1].x is Some,
            self@[3].x is Some,
            i64::MIN <= self.spec_width() <= i64::MAX,
        ensures
            r == self.spec_width(),
            self@[1].x->0 <= self@[3].x->0 ==> r >= 0,
    {
        self.vertices[3].x.unwrap() - self.vertices[1].x.unwrap()
    }

    /// Derived height. Negative when the service returns a rotated or
    /// reordered quadrilateral; such input is surfaced, not clamped.
    pub fn height(&self) -> (r: i64)
        requires
            self.wf(),
            self@[1].y is Some,
            self@[3].y is Some,
            i64::MIN <= self.spec_height() <= i64::MAX,
        ensures
            r == self.spec_height(),
            self@[1].y->0 <= self@[3].y->0 ==> r >= 0,
    {
        self.vertices[3].y.unwrap() - self.vertices[1].y.unwrap()
    }
}

/// On any well-formed box whose vertex 3 lies down-and-right of vertex 1,
/// the derived width and height are non-negative and the top-left corner is
/// exactly vertex 1.
pub proof fn lemma_box_measurements(b: BoundingBox)
    requires
        b.wf(),
        b.vertex_complete(1),
        b.vertex_complete(3),
        b@[1].x->0 <= b@[3].x->0,
        b@[1].y->0 <= b@[3].y->0,
    ensures
        b.spec_width() >= 0,
        b.spec_height() >= 0,
        b.spec_left_top() == (Point { x: b@[1].x->0, y: b@[1].y->0 }),
{
}

} // verus!
