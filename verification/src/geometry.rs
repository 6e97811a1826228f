//! Transient triangle views and the geometric predicates the coplanar
//! resolver consults.

use vstd::prelude::*;

verus! {

/// A read-only geometric view of one triangle: three positions taken from
/// the shared vertex buffer. Never stored; computed on demand.
#[derive(Clone, Copy)]
pub struct Triangle {
    pub a: glam::Vec3,
    pub b: glam::Vec3,
    pub c: glam::Vec3,
}

impl Triangle {
    /// Creates a triangle view from three positions.
    pub fn new(a: glam::Vec3, b: glam::Vec3, c: glam::Vec3) -> (r: Triangle)
        ensures
            r.a == a,
            r.b == b,
            r.c == c,
    {
        Triangle { a, b, c }
    }
}

/// The tolerant geometric tests that drive the coplanar resolver.
///
/// The tests compare single-precision positions, which the verified code
/// cannot evaluate, so the resolver takes an implementation of this trait
/// and is verified for every answer the implementation may give: whatever
/// the answers, the rewritten index buffer stays within the vertex count and
/// the change budget is respected.
///
/// An implementation fixes one base tolerance `tol` and should answer as the
/// resolver's case analysis expects:
/// - `is_degenerate`: the triangle's unnormalized normal is shorter than
///   `tol` (collinear corners within tolerance);
/// - `is_coplanar`: each corner of the second triangle satisfies the first
///   triangle's plane equation within `2 * tol`;
/// - `contains_triangle`: all three corners of the second triangle lie in
///   the first, with `2 * tol` slack on the barycentric weights;
/// - `contains_point`: the point lies in the triangle, with `tol` slack on
///   the barycentric weights;
/// - `same_winding_direction`: `Some(true)` when the normalized normals
///   agree within `tol`, `Some(false)` when they are opposite within `tol`,
///   `None` otherwise;
/// - `segment_intersection`: the proper interior crossing of the two
///   segments, treating direction pairs with a cross product shorter than
///   `tol` as parallel, and excluding crossings at the endpoints (parameter
///   range shrunk by `tol` at both ends).
pub trait PlaneGeometry {
    /// Whether the triangle has (nearly) collinear corners.
    fn is_degenerate(&self, t: &Triangle) -> bool;

    /// Whether the two triangles lie in one plane, within tolerance.
    fn is_coplanar(&self, t1: &Triangle, t2: &Triangle) -> bool;

    /// Whether `inner` lies fully within `outer`, within tolerance.
    fn contains_triangle(&self, outer: &Triangle, inner: &Triangle) -> bool;

    /// Whether the point lies within the triangle, within tolerance.
    fn contains_point(&self, t: &Triangle, p: glam::Vec3) -> bool;

    /// Whether two near-coplanar triangles wind the same way: a tri-state
    /// answer, `None` when the planes are too far apart to compare.
    fn same_winding_direction(&self, t1: &Triangle, t2: &Triangle) -> Option<bool>;

    /// The interior crossing point of segments `a`-`b` and `c`-`d` restricted
    /// to a common plane, if there is one.
    fn segment_intersection(
        &self,
        a: glam::Vec3,
        b: glam::Vec3,
        c: glam::Vec3,
        d: glam::Vec3,
    ) -> Option<glam::Vec3>;
}

} // verus!
