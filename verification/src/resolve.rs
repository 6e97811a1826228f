//! The coplanar overlap resolver: finds coplanar triangle pairs whose edges
//! cross, inserts new vertices at the crossing points, and rewrites the
//! index buffer in place to eliminate the overlap, case by case.
//!
//! The geometric tests are supplied by a [`PlaneGeometry`] implementation;
//! the resolver is verified for every answer those tests may give: the index
//! buffer always stays within the vertex count, the original vertices are
//! never touched, and the caller's change budget is respected.

use vstd::prelude::*;

use crate::geometry::{PlaneGeometry, Triangle};
use crate::index_type::IndexType;
use crate::mesh::PMesh;

verus! {

broadcast use
    crate::mesh::PMesh::lemma_spec_vertices,
    crate::mesh::PMesh::lemma_spec_indices,
    crate::mesh::PMesh::lemma_spec_uv,
    crate::mesh::PMesh::lemma_spec_normals,
    crate::mesh::PMesh::lemma_spec_topology,
;

/// One pairwise edge crossing: the edge of each triangle it lies on, and
/// the crossing point. Produced during one pairwise comparison and discarded
/// after the re-triangulation step that consumes it.
#[derive(Clone, Copy)]
pub(crate) struct EdgeIntersection {
    pub edge1: usize,
    pub edge2: usize,
    pub intersection: glam::Vec3,
}

impl EdgeIntersection {
    /// The same crossing seen from the other triangle's side.
    pub(crate) fn swap(&self) -> (r: EdgeIntersection)
        ensures
            r.edge1 == self.edge2,
            r.edge2 == self.edge1,
            r.intersection == self.intersection,
    {
        EdgeIntersection { edge1: self.edge2, edge2: self.edge1, intersection: self.intersection }
    }
}

/// A classification that the resolver's case analysis rules out for real
/// plane geometry; reported instead of acting on a configuration whose
/// invariants do not hold.
#[derive(Clone, Copy, Debug, PartialEq, Eq, Structural)]
pub enum ResolveError {
    /// Two crossings claim the same edge pair.
    AmbiguousPair,
    /// Four crossings whose edges do not spread over three edges of one
    /// triangle and two of the other.
    MissingSpread,
    /// Four crossings without a wrap point where both edge numbers step at
    /// once.
    MissingWrapPoint,
    /// A flipped two-crossing configuration in which neither tip lies inside
    /// the other triangle.
    MissingTip,
}

/// Every record speaks of edges `0`, `1` or `2` of its two triangles.
pub(crate) open spec fn edges_in_range(records: Seq<EdgeIntersection>) -> bool {
    forall|i: int|
        0 <= i < records.len() ==> (#[trigger] records[i]).edge1 < 3 && records[i].edge2 < 3
}

/// Between `pre` and `post`, every index-buffer position below `pre`'s
/// length keeps its value unless it belongs to slot `t1` or slot `t2`: a
/// re-triangulation rewrites the two classified triangles in place and only
/// appends beyond them.
pub(crate) open spec fn untouched_outside(pre: Seq<int>, post: Seq<int>, t1: int, t2: int) -> bool {
    forall|i: int|
        0 <= i < pre.len() && !(3 * t1 <= i < 3 * t1 + 3) && !(3 * t2 <= i < 3 * t2 + 3)
            ==> #[trigger] post[i] == pre[i]
}

/// `v` is one of the three previous entries of slot `t`.
pub(crate) open spec fn in_slot(pre: Seq<int>, t: int, v: int) -> bool {
    v == pre[3 * t] || v == pre[3 * t + 1] || v == pre[3 * t + 2]
}

/// The edge on which two crossings of one shared edge are ordered: the
/// spec twin of `edge_ordering_flip`'s first result.
pub(crate) open spec fn ordering_edge(e1: int, e2: int) -> int {
    if e1 == 0 && e2 == 2 {
        0int
    } else if e1 == 2 && e2 == 0 {
        0int
    } else if e1 > e2 {
        e1
    } else {
        e2
    }
}

/// Whether the two crossings' order is reversed on that edge: the spec twin
/// of `edge_ordering_flip`'s second result.
pub(crate) open spec fn ordering_flip(e1: int, e2: int) -> bool {
    if e1 == 0 && e2 == 2 {
        true
    } else if e1 == 2 && e2 == 0 {
        false
    } else {
        e1 > e2
    }
}

/// One of the four edge numbers is `v`.
pub(crate) open spec fn occurs_among_four(a: int, b: int, c: int, d: int, v: int) -> bool {
    a == v || b == v || c == v || d == v
}

/// How many distinct values appear among four edge numbers below three.
pub(crate) open spec fn distinct_among_four(a: int, b: int, c: int, d: int) -> int {
    (if occurs_among_four(a, b, c, d, 0) {
        1int
    } else {
        0int
    }) + (if occurs_among_four(a, b, c, d, 1) {
        1int
    } else {
        0int
    }) + (if occurs_among_four(a, b, c, d, 2) {
        1int
    } else {
        0int
    })
}

/// The records are ordered by `(edge1, edge2)`.
pub(crate) open spec fn lex_sorted(records: Seq<EdgeIntersection>) -> bool {
    forall|a: int, b: int|
        #![trigger records[a], records[b]]
        0 <= a < b < records.len() ==> (records[a].edge1 < records[b].edge1 || (records[a].edge1
            == records[b].edge1 && records[a].edge2 <= records[b].edge2))
}

/// Position `i` of four cyclically ordered records is the wrap point next
/// to the interior corners `i1` and `i2`, in either direction.
pub(crate) open spec fn wrap_point_at(
    records: Seq<EdgeIntersection>,
    i: int,
    i1: int,
    i2: int,
) -> bool {
    ((records[i].edge1 as int) == i1 && (records[(i + 1) % 4].edge2 as int) == i2) || ((records[(i
        + 1) % 4].edge1 as int) == i1 && (records[i].edge2 as int) == i2)
}

/// Some position of four cyclically ordered records is a wrap point.
pub(crate) open spec fn wrap_point_exists(records: Seq<EdgeIntersection>, i1: int, i2: int) -> bool {
    exists|i: int| 0 <= i < 4 && #[trigger] wrap_point_at(records, i, i1, i2)
}

/// The edge pair on which two crossings of one shared edge are ordered, and
/// whether their order is reversed: edges `0` and `2` are cyclic neighbours,
/// so that pair orders as edge `0`.
fn edge_ordering_flip(e1: usize, e2: usize) -> (r: (usize, bool))
    ensures
        r.0 as int == ordering_edge(e1 as int, e2 as int),
        r.1 == ordering_flip(e1 as int, e2 as int),
{
    if e1 == 0 && e2 == 2 {
        (0, true)
    } else if e1 == 2 && e2 == 0 {
        (0, false)
    } else {
        (if e1 > e2 { e1 } else { e2 }, e1 > e2)
    }
}

/// Sorts the crossing records by `(edge1, edge2)`, keeping the order of
/// records with equal keys (an insertion sort, as the resolver's recipes
/// expect).
fn sort_records(records: &mut Vec<EdgeIntersection>)
    requires
        edges_in_range(old(records)@),
    ensures
        final(records)@.len() == old(records)@.len(),
        edges_in_range(final(records)@),
        lex_sorted(old(records)@) ==> final(records)@ == old(records)@,
{
    let n = records.len();
    let mut i: usize = 1;
    while i < n
        invariant
            n == records@.len(),
            edges_in_range(records@),
            lex_sorted(old(records)@) ==> records@ == old(records)@,
        decreases n - i,
    {
        let mut j: usize = i;
        while j > 0
            invariant
                n == records@.len(),
                j <= i < n,
                edges_in_range(records@),
                lex_sorted(old(records)@) ==> records@ == old(records)@,
            decreases j,
        {
            let a = records[j];
            let b = records[j - 1];
            if !(a.edge1 < b.edge1 || (a.edge1 == b.edge1 && a.edge2 < b.edge2)) {
                break;
            }
            records.set(j, b);
            records.set(j - 1, a);
            j = j - 1;
        }
        i = i + 1;
    }
}

/// Rotates the four sorted records left by `i`, so that the record the case
/// analysis anchors on comes first.
fn rotate_records(records: &Vec<EdgeIntersection>, i: usize) -> (r: Vec<EdgeIntersection>)
    requires
        records@.len() == 4,
        i < 4,
        edges_in_range(records@),
    ensures
        r@.len() == 4,
        edges_in_range(r@),
{
    let mut out: Vec<EdgeIntersection> = Vec::new();
    let mut k: usize = 0;
    while k < 4
        invariant
            records@.len() == 4,
            i < 4,
            edges_in_range(records@),
            k <= 4,
            out@.len() == k as int,
            edges_in_range(out@),
        decreases 4 - k,
    {
        out.push(records[(i + k) % 4]);
        k = k + 1;
    }
    out
}

impl<T: IndexType> PMesh<T> {
    /// Whether the triangle in slot `i` contains the position of vertex `p`,
    /// as the given geometry answers it.
    fn triangle_has_point<G: PlaneGeometry>(&self, geo: &G, i: usize, p: T) -> (r: bool)
        requires
            self.wf(),
            3 * (i as int) + 2 < self.spec_indices().len(),
            p.value() < self.spec_vertices().len(),
    {
        let t = self.triangle_at(i);
        proof {
            p.value_in_range();
        }
        geo.contains_point(&t, self.vec3_at(p.index()))
    }

    /// The state in which the resolver rewrites a mesh: well-formed, with
    /// the attribute arrays dropped (re-triangulation adds vertices, so
    /// per-vertex attributes cannot be kept).
    pub open spec fn resolving(&self) -> bool {
        &&& self.wf()
        &&& self.spec_uv() is None
        &&& self.spec_normals() is None
    }

    /// The first corner (if any) of the triangle in slot `i` that lies
    /// inside the triangle in slot `j`.
    fn first_corner_inside<G: PlaneGeometry>(&self, geo: &G, i: usize, j: usize) -> (r: Option<
        usize,
    >)
        requires
            self.wf(),
            3 * (i as int) + 2 < self.spec_indices().len(),
            3 * (j as int) + 2 < self.spec_indices().len(),
        ensures
            r is Some ==> r->0 < 3,
    {
        let t = self.triangle_at(i);
        let other = self.triangle_at(j);
        if geo.contains_point(&other, t.a) {
            Some(0)
        } else if geo.contains_point(&other, t.b) {
            Some(1)
        } else if geo.contains_point(&other, t.c) {
            Some(2)
        } else {
            None
        }
    }

    /// Rewrites a pair of coplanar triangles whose edges cross twice, both
    /// crossings on the same edge of `triangle1` (its "shared" edge): the two
    /// crossing points become new vertices, the inner triangle is rewritten
    /// in place, and up to four more triangles are pushed, chosen by where
    /// the tip region falls.
    #[verifier::rlimit(100)]
    #[verifier::spinoff_prover]
    fn configuration_2p_shared<G: PlaneGeometry>(
        &mut self,
        in1: EdgeIntersection,
        in2: EdgeIntersection,
        triangle1: usize,
        triangle2: usize,
        geo: &G,
    )
        requires
            old(self).resolving(),
            triangle1 != triangle2,
            3 * (triangle1 as int) + 2 < old(self).spec_indices().len(),
            3 * (triangle2 as int) + 2 < old(self).spec_indices().len(),
            old(self).spec_vertices().len() + 2 <= T::max_value() + 1,
        ensures
            final(self).resolving(),
            final(self).spec_vertices() =~= old(self).spec_vertices() + seq![
                in1.intersection,
                in2.intersection,
            ],
            ({
                let g = final(self).spec_indices().len() - old(self).spec_indices().len();
                g == 0 || g == 3 || g == 6 || g == 15
            }),
            ({
                let pre = old(self).spec_indices();
                let post = final(self).spec_indices();
                let t1 = triangle1 as int;
                let t2 = triangle2 as int;
                let n0 = old(self).spec_vertices().len() as int;
                let eo = ordering_edge(in1.edge2 as int, in2.edge2 as int);
                let nw1 = if ordering_flip(in1.edge2 as int, in2.edge2 as int) {
                    n0
                } else {
                    n0 + 1
                };
                let nw2 = if ordering_flip(in1.edge2 as int, in2.edge2 as int) {
                    n0 + 1
                } else {
                    n0
                };
                let g = post.len() - pre.len();
                // the inner triangle's slot is rewritten in one of the two
                // enumerated patterns; which one follows the winding and
                // containment answers
                &&& ((post[3 * t2] == nw1 && post[3 * t2 + 1] == nw2 && post[3 * t2 + 2] == pre[3
                    * t2 + eo % 3]) || (post[3 * t2] == nw2 && post[3 * t2 + 1] == nw1 && post[3
                    * t2 + 2] == pre[3 * t2 + (eo + 1) % 3]))
                // the outer triangle's slot is rewritten exactly in the
                // full re-triangulation, and only there
                &&& (g == 15 ==> (post[3 * t1] == nw2 && post[3 * t1 + 1] == pre[3 * t1 + ((
                in1.edge1 as int) + 1) % 3] && post[3 * t1 + 2] == pre[3 * t2 + eo % 3]))
                &&& (g != 15 ==> (post[3 * t1] == pre[3 * t1] && post[3 * t1 + 1] == pre[3 * t1
                    + 1] && post[3 * t1 + 2] == pre[3 * t1 + 2]))
            }),
            untouched_outside(
                old(self).spec_indices(),
                final(self).spec_indices(),
                triangle1 as int,
                triangle2 as int,
            ),
            final(self).spec_topology() == old(self).spec_topology(),
    {
        let edge1 = in1.edge1;
        let (edge2, flip) = edge_ordering_flip(in1.edge2, in2.edge2);

        // insert the intersection points
        self.vertices.push(in1.intersection);
        self.vertices.push(in2.intersection);

        // new vertices
        let vlen = self.vertices.len();
        let mut new2 = T::new(vlen - 2);
        let mut new1 = T::new(vlen - 1);

        if flip {
            let tmp = new1;
            new1 = new2;
            new2 = tmp;
        }

        // outer triangle
        let (left, right, third) = self.indices.get_triangle(triangle1, edge1);

        // inner triangle
        let (inner, outer1, outer2) = self.indices.get_triangle(triangle2, edge2);

        proof {
            assert(left.value() < self.spec_vertices().len());
            assert(right.value() < self.spec_vertices().len());
            assert(third.value() < self.spec_vertices().len());
            assert(inner.value() < self.spec_vertices().len());
            assert(outer1.value() < self.spec_vertices().len());
            assert(outer2.value() < self.spec_vertices().len());
        }

        // is the little triangle tip outside?
        let ta = self.triangle_ex(left, right, third);
        let tb = self.triangle_ex(inner, right, third);
        if let Some(val) = geo.same_winding_direction(&ta, &tb) {
            if !val {
                // cut the triangle once; some overlap is left for future
                // iterations
                self.indices.overwrite(triangle2, new1, new2, inner);
                proof {
                    assert(self.wf());
                }

                if !self.triangle_has_point(geo, triangle1, outer2) {
                    self.indices.push(new1, outer2, new2);
                    self.indices.push(new1, outer1, outer2);
                    proof {
                        assert(self.wf());
                    }
                } else {
                    let t1v = self.triangle_at(triangle1);
                    proof {
                        outer1.value_in_range();
                    }
                    if !geo.contains_point(&t1v, self.vec3_at(outer1.index())) {
                        self.indices.push(new1, outer1, outer2);
                        proof {
                            assert(self.wf());
                        }
                    }
                }
                return ;
            }
        }

        self.indices.overwrite(triangle2, new2, new1, outer1);
        self.indices.push(outer1, outer2, new2);
        proof {
            assert(self.wf());
        }

        let t1v = self.triangle_at(triangle1);
        proof {
            inner.value_in_range();
        }
        if geo.contains_point(&t1v, self.vec3_at(inner.index())) {
            return ;
        }

        self.indices.overwrite(triangle1, new2, right, inner);
        self.indices.push(inner, right, third);
        self.indices.push(inner, third, new1);
        self.indices.push(new1, third, left);
        self.indices.push(new1, new2, inner);
        proof {
            assert(self.wf());
        }
    }

    /// Rewrites a pair of coplanar triangles whose edges cross twice on
    /// distinct edges of both triangles: the two crossing points become new
    /// vertices; a flipped (nested) sub-case keeps only the side whose apex
    /// truly lies inside the other triangle, otherwise each apex triangle is
    /// drawn only where its apex lies outside the opposing triangle.
    #[verifier::rlimit(100)]
    #[verifier::spinoff_prover]
    fn configuration_2p_distinct<G: PlaneGeometry>(
        &mut self,
        in1: EdgeIntersection,
        in2: EdgeIntersection,
        triangle1: usize,
        triangle2: usize,
        geo: &G,
    ) -> (res: Result<(), ResolveError>)
        requires
            old(self).resolving(),
            triangle1 != triangle2,
            3 * (triangle1 as int) + 2 < old(self).spec_indices().len(),
            3 * (triangle2 as int) + 2 < old(self).spec_indices().len(),
            old(self).spec_vertices().len() + 2 <= T::max_value() + 1,
        ensures
            final(self).resolving(),
            final(self).spec_vertices() =~= old(self).spec_vertices() + seq![
                in1.intersection,
                in2.intersection,
            ],
            res is Ok ==> ({
                let g = final(self).spec_indices().len() - old(self).spec_indices().len();
                g == 3 || g == 6 || g == 9 || g == 12
            }),
            res is Ok ==> ({
                let pre = old(self).spec_indices();
                let post = final(self).spec_indices();
                let t1 = triangle1 as int;
                let t2 = triangle2 as int;
                let n0 = old(self).spec_vertices().len() as int;
                let e1o = ordering_edge(in1.edge1 as int, in2.edge1 as int);
                let e2o = ordering_edge(in1.edge2 as int, in2.edge2 as int);
                let fx = ordering_flip(in1.edge1 as int, in2.edge1 as int) != ordering_flip(
                    in1.edge2 as int,
                    in2.edge2 as int,
                );
                let nw1 = if fx {
                    n0 + 1
                } else {
                    n0
                };
                let nw2 = if fx {
                    n0
                } else {
                    n0 + 1
                };
                let tip1 = pre[3 * t1 + e1o % 3];
                let right1 = pre[3 * t1 + (e1o + 1) % 3];
                let tip2 = pre[3 * t2 + e2o % 3];
                let left2 = pre[3 * t2 + (e2o + 1) % 3];
                let right2 = pre[3 * t2 + (e2o + 2) % 3];
                // both crossed slots are rewritten in one of the three
                // enumerated patterns; which one follows the winding and
                // containment answers
                ||| (post[3 * t1] == tip1 && post[3 * t1 + 1] == nw1 && post[3 * t1 + 2] == nw2
                    && post[3 * t2] == nw2 && post[3 * t2 + 1] == nw1 && post[3 * t2 + 2]
                    == right2)
                ||| (post[3 * t2] == tip2 && post[3 * t2 + 1] == nw2 && post[3 * t2 + 2] == nw1
                    && post[3 * t1] == nw1 && post[3 * t1 + 1] == nw2 && post[3 * t1 + 2]
                    == right1)
                ||| (post[3 * t2] == nw1 && post[3 * t2 + 1] == nw2 && post[3 * t2 + 2] == left2
                    && post[3 * t1] == nw2 && post[3 * t1 + 1] == nw1 && post[3 * t1 + 2]
                    == right1)
            }),
            untouched_outside(
                old(self).spec_indices(),
                final(self).spec_indices(),
                triangle1 as int,
                triangle2 as int,
            ),
            final(self).spec_topology() == old(self).spec_topology(),
            res is Err ==> res == Err::<(), ResolveError>(ResolveError::MissingTip),
            res is Err ==> final(self).spec_indices() == old(self).spec_indices(),
    {
        let (edge1, flip1) = edge_ordering_flip(in1.edge1, in2.edge1);
        let (edge2, flip2) = edge_ordering_flip(in1.edge2, in2.edge2);

        // insert the intersection points
        self.vertices.push(in1.intersection);
        self.vertices.push(in2.intersection);

        // new vertices
        let vlen = self.vertices.len();
        let mut new1 = T::new(vlen - 2);
        let mut new2 = T::new(vlen - 1);

        if flip1 ^ flip2 {
            let tmp = new1;
            new1 = new2;
            new2 = tmp;
        }

        let (tip1, right1, left1) = self.indices.get_triangle(triangle1, edge1);
        let (tip2, left2, right2) = self.indices.get_triangle(triangle2, edge2);

        proof {
            assert(tip1.value() < self.spec_vertices().len());
            assert(right1.value() < self.spec_vertices().len());
            assert(left1.value() < self.spec_vertices().len());
            assert(tip2.value() < self.spec_vertices().len());
            assert(left2.value() < self.spec_vertices().len());
            assert(right2.value() < self.spec_vertices().len());
        }

        // detect the flipped configuration (the windings differ): two
        // triangles of one mesh lie inside the other one instead of one
        let ta = self.triangle_ex(new2, new1, tip2);
        let tb = self.triangle_ex(new1, new2, tip1);
        if let Some(val) = geo.same_winding_direction(&ta, &tb) {
            if !val {
                if self.triangle_has_point(geo, triangle1, tip2) {
                    if self.triangle_has_point(geo, triangle2, tip1) {
                        return Err(ResolveError::MissingTip);
                    }
                    self.indices.overwrite(triangle1, tip1, new1, new2);
                    self.indices.overwrite(triangle2, new2, new1, right2);
                    self.indices.push(left2, new2, right2);
                    proof {
                        assert(self.spec_indices()[3 * (triangle1 as int)] == tip1.value());
                        assert(self.spec_indices()[3 * (triangle1 as int) + 1] == new1.value());
                        assert(self.spec_indices()[3 * (triangle1 as int) + 2] == new2.value());
                        assert(self.spec_indices()[3 * (triangle2 as int)] == new2.value());
                        assert(self.spec_indices()[3 * (triangle2 as int) + 1] == new1.value());
                        assert(self.spec_indices()[3 * (triangle2 as int) + 2] == right2.value());
                        assert(self.wf());
                    }
                } else {
                    if !self.triangle_has_point(geo, triangle2, tip1) {
                        return Err(ResolveError::MissingTip);
                    }
                    self.indices.overwrite(triangle2, tip2, new2, new1);
                    self.indices.overwrite(triangle1, new1, new2, right1);
                    self.indices.push(left1, new1, right1);
                    proof {
                        assert(self.spec_indices()[3 * (triangle2 as int)] == tip2.value());
                        assert(self.spec_indices()[3 * (triangle2 as int) + 1] == new2.value());
                        assert(self.spec_indices()[3 * (triangle2 as int) + 2] == new1.value());
                        assert(self.spec_indices()[3 * (triangle1 as int)] == new1.value());
                        assert(self.spec_indices()[3 * (triangle1 as int) + 1] == new2.value());
                        assert(self.spec_indices()[3 * (triangle1 as int) + 2] == right1.value());
                        assert(self.wf());
                    }
                }

                return Ok(());
            }
        }

        if !self.triangle_has_point(geo, triangle1, tip2) {
            // draw only when the tip is outside
            self.indices.push(new2, new1, tip2);
            proof {
                assert(self.wf());
            }
        }

        if !self.triangle_has_point(geo, triangle2, tip1) {
            // draw only when the tip is outside
            self.indices.push(new1, new2, tip1);
            proof {
                assert(self.wf());
            }
        }

        self.indices.overwrite(triangle2, new1, new2, left2);
        self.indices.push(new1, left2, right2);

        self.indices.overwrite(triangle1, new2, new1, right1);
        self.indices.push(new2, right1, left1);
        proof {
            assert(self.spec_indices()[3 * (triangle2 as int)] == new1.value());
            assert(self.spec_indices()[3 * (triangle2 as int) + 1] == new2.value());
            assert(self.spec_indices()[3 * (triangle2 as int) + 2] == left2.value());
            assert(self.spec_indices()[3 * (triangle1 as int)] == new2.value());
            assert(self.spec_indices()[3 * (triangle1 as int) + 1] == new1.value());
            assert(self.spec_indices()[3 * (triangle1 as int) + 2] == right1.value());
            assert(self.wf());
        }
        Ok(())
    }

    /// Appends the four crossing points as new vertices and returns their
    /// indices, in record order.
    fn push_intersection_points(&mut self, inter: &Vec<EdgeIntersection>) -> (news: Vec<T>)
        requires
            old(self).spec_vertices().len() + inter@.len() <= T::max_value() + 1,
        ensures
            news@.len() == inter@.len(),
            forall|i: int|
                0 <= i < news@.len() ==> (#[trigger] news@[i]).value() == old(
                    self,
                ).spec_vertices().len() + i,
            final(self).spec_vertices().len() == old(self).spec_vertices().len() + inter@.len(),
            final(self).spec_vertices().subrange(0, old(self).spec_vertices().len() as int)
                =~= old(self).spec_vertices(),
            final(self).spec_indices() == old(self).spec_indices(),
            final(self).spec_uv() == old(self).spec_uv(),
            final(self).spec_normals() == old(self).spec_normals(),
            final(self).spec_topology() == old(self).spec_topology(),
    {
        let n = inter.len();
        let mut news: Vec<T> = Vec::new();
        let mut k: usize = 0;
        while k < n
            invariant
                n == inter@.len(),
                old(self).spec_vertices().len() + n as int <= T::max_value() + 1,
                k <= n,
                news@.len() == k as int,
                forall|i: int|
                    0 <= i < k as int ==> (#[trigger] news@[i]).value() == old(
                        self,
                    ).spec_vertices().len() + i,
                self.spec_vertices().len() == old(self).spec_vertices().len() + k as int,
                self.spec_vertices().subrange(0, old(self).spec_vertices().len() as int) =~= old(
                    self,
                ).spec_vertices(),
                self.spec_indices() == old(self).spec_indices(),
                self.spec_uv() == old(self).spec_uv(),
                self.spec_normals() == old(self).spec_normals(),
                self.spec_topology() == old(self).spec_topology(),
            decreases n - k,
        {
            news.push(T::new(self.vertices.len()));
            self.vertices.push(inter[k].intersection);
            k = k + 1;
        }
        news
    }

    /// Rewrites a pair whose edges cross four times with no corner of either
    /// triangle inside the other: the four crossing points become new
    /// vertices, anchored at the wrap point where both edge numbers step at
    /// once.
    fn configuration_4p_00(
        &mut self,
        triangle1: usize,
        _triangle2: usize,
        intersections: Vec<EdgeIntersection>,
    )
        requires
            old(self).resolving(),
            3 * (triangle1 as int) + 2 < old(self).spec_indices().len(),
            intersections@.len() == 4,
            edges_in_range(intersections@),
            old(self).spec_vertices().len() + 4 <= T::max_value() + 1,
        ensures
            final(self).resolving(),
            final(self).spec_vertices().len() == old(self).spec_vertices().len() + 4,
            final(self).spec_vertices().subrange(0, old(self).spec_vertices().len() as int)
                =~= old(self).spec_vertices(),
            final(self).spec_indices().len() == old(self).spec_indices().len() + 6,
            ({
                let pre = old(self).spec_indices();
                let post = final(self).spec_indices();
                let t1 = triangle1 as int;
                let n0 = old(self).spec_vertices().len() as int;
                let base = pre.len() as int;
                &&& (post[3 * t1] == n0 + 1 || post[3 * t1] == n0 + 2)
                &&& (post[3 * t1] == n0 + 1 <==> post[3 * t1 + 1] == n0 + 3)
                &&& (post[3 * t1 + 1] == n0 + 3 || post[3 * t1 + 1] == n0)
                &&& in_slot(pre, t1, post[3 * t1 + 2])
                &&& (post[base] == n0 || post[base] == n0 + 3)
                &&& (post[base] == n0 <==> post[3 * t1] == n0 + 1)
                &&& post[base + 3] == post[base]
                &&& (post[base + 1] == n0 + 2 || post[base + 1] == n0 + 1)
                &&& (post[base + 1] == n0 + 2 <==> post[3 * t1] == n0 + 1)
                &&& in_slot(pre, t1, post[base + 2])
                &&& post[base + 4] == post[base + 2]
                &&& in_slot(pre, t1, post[base + 5])
            }),
            untouched_outside(
                old(self).spec_indices(),
                final(self).spec_indices(),
                triangle1 as int,
                triangle1 as int,
            ),
            final(self).spec_topology() == old(self).spec_topology(),
    {
        // sort the crossings by the edge pair
        let mut inter = intersections;
        sort_records(&mut inter);

        // find the wrap point, where both triangles' edge numbers step up at
        // once, and rotate it to the front
        let mut i: usize = 0;
        while i < 4
            invariant
                inter@.len() == 4,
                edges_in_range(inter@),
                i <= 4,
            decreases 4 - i,
        {
            if ((inter[i].edge1 + 1) % 3) == inter[(i + 1) % 4].edge1 && inter[i].edge2 == ((inter[(
            i + 1) % 4].edge2 + 1) % 3) {
                inter = rotate_records(&inter, i);
                break ;
            }
            i = i + 1;
        }

        let (left1, tip1, right1) = self.indices.get_triangle(triangle1, inter[0].edge1);
        proof {
            assert(left1.value() < self.spec_vertices().len());
            assert(tip1.value() < self.spec_vertices().len());
            assert(right1.value() < self.spec_vertices().len());
        }

        let news = self.push_intersection_points(&inter);

        if inter[0].edge1 != inter[2].edge2 {
            self.indices.overwrite(triangle1, news[1], news[3], tip1);
            self.indices.push(news[0], news[2], right1);
            self.indices.push(news[0], right1, left1);
        } else {
            self.indices.overwrite(triangle1, news[2], news[0], tip1);
            self.indices.push(news[3], news[1], right1);
            self.indices.push(news[3], right1, left1);
        }
        proof {
            assert(self.wf());
        }
    }

    /// Rewrites a pair whose edges cross four times with one corner of
    /// `triangle1` inside the other triangle: the crossings must spread over
    /// all three edges of `triangle1` and exactly two edges of the other.
    fn configuration_4p_01(
        &mut self,
        triangle1: usize,
        _triangle2: usize,
        _interior: usize,
        intersections: Vec<EdgeIntersection>,
    ) -> (res: Result<(), ResolveError>)
        requires
            old(self).resolving(),
            3 * (triangle1 as int) + 2 < old(self).spec_indices().len(),
            intersections@.len() == 4,
            edges_in_range(intersections@),
            old(self).spec_vertices().len() + 4 <= T::max_value() + 1,
        ensures
            final(self).resolving(),
            final(self).spec_topology() == old(self).spec_topology(),
            res is Err <==> !(distinct_among_four(
                intersections@[0].edge1 as int,
                intersections@[1].edge1 as int,
                intersections@[2].edge1 as int,
                intersections@[3].edge1 as int,
            ) == 3 && distinct_among_four(
                intersections@[0].edge2 as int,
                intersections@[1].edge2 as int,
                intersections@[2].edge2 as int,
                intersections@[3].edge2 as int,
            ) == 2),
            res is Err ==> res == Err::<(), ResolveError>(ResolveError::MissingSpread),
            res is Ok ==> {
                &&& final(self).spec_vertices().len() == old(self).spec_vertices().len() + 4
                &&& final(self).spec_vertices().subrange(
                    0,
                    old(self).spec_vertices().len() as int,
                ) =~= old(self).spec_vertices()
                &&& final(self).spec_indices().len() == old(self).spec_indices().len() + 3
                &&& ({
                    let pre = old(self).spec_indices();
                    let post = final(self).spec_indices();
                    let t1 = triangle1 as int;
                    let n0 = old(self).spec_vertices().len() as int;
                    let base = pre.len() as int;
                    &&& (post[3 * t1] == n0 + 3 || post[3 * t1] == n0 + 2)
                    &&& post[3 * t1 + 1] == n0 + 1
                    &&& in_slot(pre, t1, post[3 * t1 + 2])
                    &&& post[base] == n0
                    &&& (post[base + 1] == n0 + 2 || post[base + 1] == n0 + 3)
                    &&& (post[3 * t1] == n0 + 3 <==> post[base + 1] == n0 + 2)
                    &&& in_slot(pre, t1, post[base + 2])
                })
                &&& untouched_outside(
                    old(self).spec_indices(),
                    final(self).spec_indices(),
                    triangle1 as int,
                    triangle1 as int,
                )
            },
            res is Err ==> (final(self).spec_vertices() == old(self).spec_vertices()
                && final(self).spec_indices() == old(self).spec_indices()),
    {
        // there must be a crossing on every edge of `triangle1` (the count
        // does not depend on the order of the records) ...
        if distinct_of_four(
            intersections[0].edge1,
            intersections[1].edge1,
            intersections[2].edge1,
            intersections[3].edge1,
        ) != 3 {
            return Err(ResolveError::MissingSpread);
        }
        // ... and on exactly two edges of the other triangle
        if distinct_of_four(
            intersections[0].edge2,
            intersections[1].edge2,
            intersections[2].edge2,
            intersections[3].edge2,
        ) != 2 {
            return Err(ResolveError::MissingSpread);
        }

        // sort the crossings by the edge pair
        let mut inter = intersections;
        sort_records(&mut inter);

        // find the edge the interior corner is on and shift it to the front
        let mut i: usize = 0;
        while i < 4
            invariant
                inter@.len() == 4,
                edges_in_range(inter@),
                i <= 4,
            decreases 4 - i,
        {
            if inter[i].edge1 != inter[(i + 1) % 4].edge1 && inter[i].edge2 != inter[(i + 1)
                % 4].edge2 {
                inter = rotate_records(&inter, i);
                break ;
            }
            i = i + 1;
        }

        let (left1, _tip1, right1) = self.indices.get_triangle(triangle1, inter[0].edge1);
        proof {
            assert(left1.value() < self.spec_vertices().len());
            assert(right1.value() < self.spec_vertices().len());
        }

        let news = self.push_intersection_points(&inter);

        if inter[0].edge1 == inter[2].edge2 {
            self.indices.overwrite(triangle1, news[3], news[1], right1);
            self.indices.push(news[0], news[2], left1);
        } else {
            self.indices.overwrite(triangle1, news[2], news[1], right1);
            self.indices.push(news[0], news[3], left1);
        }
        proof {
            assert(self.wf());
        }
        Ok(())
    }

    /// Rewrites a pair whose edges cross four times with one corner of each
    /// triangle inside the other, anchored at the wrap point next to both
    /// interior corners.
    fn configuration_4p_11(
        &mut self,
        triangle1: usize,
        triangle2: usize,
        interior1: usize,
        interior2: usize,
        intersections: Vec<EdgeIntersection>,
    ) -> (res: Result<(), ResolveError>)
        requires
            old(self).resolving(),
            triangle1 != triangle2,
            3 * (triangle1 as int) + 2 < old(self).spec_indices().len(),
            3 * (triangle2 as int) + 2 < old(self).spec_indices().len(),
            intersections@.len() == 4,
            edges_in_range(intersections@),
            old(self).spec_vertices().len() + 4 <= T::max_value() + 1,
        ensures
            final(self).resolving(),
            final(self).spec_topology() == old(self).spec_topology(),
            res is Err ==> res == Err::<(), ResolveError>(ResolveError::MissingWrapPoint),
            lex_sorted(intersections@) ==> (res is Ok <==> wrap_point_exists(
                intersections@,
                interior1 as int,
                interior2 as int,
            )),
            res is Ok ==> {
                &&& final(self).spec_vertices().len() == old(self).spec_vertices().len() + 4
                &&& final(self).spec_vertices().subrange(
                    0,
                    old(self).spec_vertices().len() as int,
                ) =~= old(self).spec_vertices()
                &&& final(self).spec_indices().len() == old(self).spec_indices().len() + 6
                &&& ({
                    let pre = old(self).spec_indices();
                    let post = final(self).spec_indices();
                    let t1 = triangle1 as int;
                    let t2 = triangle2 as int;
                    let n0 = old(self).spec_vertices().len() as int;
                    let base = pre.len() as int;
                    &&& post[3 * t1] == n0 + 2
                    &&& post[3 * t1 + 1] == n0 + 1
                    &&& in_slot(pre, t1, post[3 * t1 + 2])
                    &&& post[3 * t2] == n0 + 3
                    &&& post[3 * t2 + 1] == n0
                    &&& in_slot(pre, t2, post[3 * t2 + 2])
                    &&& post[base] == n0
                    &&& post[base + 1] == n0 + 3
                    &&& in_slot(pre, t1, post[base + 2])
                    &&& post[base + 3] == n0
                    &&& in_slot(pre, t2, post[base + 4])
                    &&& in_slot(pre, t2, post[base + 5])
                })
                &&& untouched_outside(
                    old(self).spec_indices(),
                    final(self).spec_indices(),
                    triangle1 as int,
                    triangle2 as int,
                )
            },
            res is Err ==> (final(self).spec_vertices() == old(self).spec_vertices()
                && final(self).spec_indices() == old(self).spec_indices()),
    {
        let ghost orig = intersections@;
        // sort the crossings by the edge pair
        let mut inter = intersections;
        sort_records(&mut inter);

        let mut d = true;
        let mut found = false;

        // find the wrap point next to both interior corners and rotate it to
        // the front
        let mut i: usize = 0;
        while i < 4
            invariant_except_break
                found == false,
                lex_sorted(orig) ==> inter@ == orig,
            invariant
                inter@.len() == 4,
                edges_in_range(inter@),
                i <= 4,
                lex_sorted(orig) ==> (found ==> wrap_point_exists(
                    orig,
                    interior1 as int,
                    interior2 as int,
                )),
                lex_sorted(orig) && !found ==> forall|i2: int|
                    0 <= i2 < i as int ==> !wrap_point_at(
                        orig,
                        i2,
                        interior1 as int,
                        interior2 as int,
                    ),
            ensures
                lex_sorted(orig) ==> (found <==> wrap_point_exists(
                    orig,
                    interior1 as int,
                    interior2 as int,
                )),
            decreases 4 - i,
        {
            if inter[i].edge1 == interior1 && inter[(i + 1) % 4].edge2 == interior2 {
                proof {
                    if lex_sorted(orig) {
                        assert(((i + 1) % 4) as int == (i as int + 1) % 4);
                        assert(wrap_point_at(orig, i as int, interior1 as int, interior2 as int));
                    }
                }
                inter = rotate_records(&inter, i);
                d = true;
                found = true;
                break ;
            }
            if inter[(i + 1) % 4].edge1 == interior1 && inter[i].edge2 == interior2 {
                proof {
                    if lex_sorted(orig) {
                        assert(((i + 1) % 4) as int == (i as int + 1) % 4);
                        assert(wrap_point_at(orig, i as int, interior1 as int, interior2 as int));
                    }
                }
                inter = rotate_records(&inter, i);
                d = false;
                found = true;
                break ;
            }
            i = i + 1;
        }
        proof {
            assert(orig == intersections@);
        }
        if !found {
            return Err(ResolveError::MissingWrapPoint);
        }

        let (left1, _tip1, right1) = self.indices.get_triangle(triangle1, inter[0].edge1);
        let (left2, _tip2, right2) = self.indices.get_triangle(
            triangle2,
            inter[if d {
                1
            } else {
                3
            }].edge2,
        );
        proof {
            assert(left1.value() < self.spec_vertices().len());
            assert(right1.value() < self.spec_vertices().len());
            assert(left2.value() < self.spec_vertices().len());
            assert(right2.value() < self.spec_vertices().len());
        }

        let news = self.push_intersection_points(&inter);

        self.indices.overwrite(triangle1, news[2], news[1], right1);
        self.indices.push(news[0], news[3], left1);

        self.indices.overwrite(triangle2, news[3], news[0], left2);
        self.indices.push(news[0], right2, left2);
        proof {
            assert(self.wf());
        }
        Ok(())
    }

    /// Two triangles crossing six times form a hex-star overlap; resolving
    /// it is not yet handled, so the resolver deliberately takes no action.
    fn configuration_6p(&mut self, _triangle1: usize, _triangle2: usize)
        ensures
            *final(self) == *old(self),
    {
    }

    /// Classifies the crossings found between two triangles and dispatches
    /// to the matching re-triangulation recipe. Returns whether the mesh was
    /// changed; no crossing, a single touch, and the unhandled six-crossing
    /// overlap report no change.
    fn process_edge_intersections<G: PlaneGeometry>(
        &mut self,
        intersections: Vec<EdgeIntersection>,
        triangle1: usize,
        triangle2: usize,
        geo: &G,
    ) -> (res: Result<bool, ResolveError>)
        requires
            old(self).resolving(),
            triangle1 != triangle2,
            3 * (triangle1 as int) + 2 < old(self).spec_indices().len(),
            3 * (triangle2 as int) + 2 < old(self).spec_indices().len(),
            edges_in_range(intersections@),
            old(self).spec_vertices().len() + 4 <= T::max_value() + 1,
        ensures
            final(self).resolving(),
            final(self).spec_topology() == old(self).spec_topology(),
            final(self).spec_vertices().len() >= old(self).spec_vertices().len(),
            final(self).spec_vertices().len() <= old(self).spec_vertices().len() + 4,
            final(self).spec_vertices().subrange(0, old(self).spec_vertices().len() as int)
                =~= old(self).spec_vertices(),
            final(self).spec_indices().len() >= old(self).spec_indices().len(),
            untouched_outside(
                old(self).spec_indices(),
                final(self).spec_indices(),
                triangle1 as int,
                triangle2 as int,
            ),
            res matches Ok(false) ==> (final(self).spec_vertices() == old(self).spec_vertices()
                && final(self).spec_indices() == old(self).spec_indices()),
            // no crossing and a single touch are no interaction
            intersections@.len() == 0 || intersections@.len() == 1 ==> res == Ok::<
                bool,
                ResolveError,
            >(false),
            // the unhandled six-crossing hex-star overlap reports no change
            intersections@.len() == 6 ==> res == Ok::<bool, ResolveError>(false),
            // so does any crossing count outside the classified ones
            !(intersections@.len() == 0 || intersections@.len() == 1 || intersections@.len() == 2
                || intersections@.len() == 4 || intersections@.len() == 6) ==> res == Ok::<
                bool,
                ResolveError,
            >(false),
            // a change comes only from the two- and four-crossing recipes,
            // and inserts exactly their crossing points
            res == Ok::<bool, ResolveError>(true) ==> (intersections@.len() == 2
                || intersections@.len() == 4),
            res == Ok::<bool, ResolveError>(true) ==> (final(self).spec_vertices().len()
                == old(self).spec_vertices().len() + 2 || final(self).spec_vertices().len()
                == old(self).spec_vertices().len() + 4),
            res is Err ==> (intersections@.len() == 2 || intersections@.len() == 4),
            // the two-crossing dispatch, by the edge pattern of the records
            intersections@.len() == 2 && intersections@[0].edge1 == intersections@[1].edge1
                && intersections@[0].edge2 == intersections@[1].edge2 ==> res == Err::<
                bool,
                ResolveError,
            >(ResolveError::AmbiguousPair),
            intersections@.len() == 2 && intersections@[0].edge1 == intersections@[1].edge1
                && intersections@[0].edge2 != intersections@[1].edge2 ==> (res == Ok::<
                bool,
                ResolveError,
            >(true) && final(self).spec_vertices() =~= old(self).spec_vertices() + seq![
                intersections@[0].intersection,
                intersections@[1].intersection,
            ]),
            intersections@.len() == 2 && intersections@[0].edge2 == intersections@[1].edge2
                && intersections@[0].edge1 != intersections@[1].edge1 ==> (res == Ok::<
                bool,
                ResolveError,
            >(true) && final(self).spec_vertices() =~= old(self).spec_vertices() + seq![
                intersections@[1].intersection,
                intersections@[0].intersection,
            ]),
            intersections@.len() == 2 && intersections@[0].edge1 != intersections@[1].edge1
                && intersections@[0].edge2 != intersections@[1].edge2 ==> ((res == Ok::<
                bool,
                ResolveError,
            >(true) || res == Err::<bool, ResolveError>(ResolveError::MissingTip))
                && final(self).spec_vertices() =~= old(self).spec_vertices() + seq![
                intersections@[0].intersection,
                intersections@[1].intersection,
            ]),
            // four crossings succeed or report a classification error, and
            // insert exactly the four crossing points on success
            intersections@.len() == 4 ==> (res == Ok::<bool, ResolveError>(true) || res == Err::<
                bool,
                ResolveError,
            >(ResolveError::MissingSpread) || res == Err::<bool, ResolveError>(
                ResolveError::MissingWrapPoint,
            )),
            intersections@.len() == 4 && res is Ok ==> (res == Ok::<bool, ResolveError>(true)
                && final(self).spec_vertices().len() == old(self).spec_vertices().len() + 4),
    {
        // never intersected
        if intersections.len() == 0 {
            return Ok(false);
        }
        // only touching
        if intersections.len() == 1 {
            return Ok(false);
        }

        if intersections.len() == 2 {
            let in1 = intersections[0];
            let in2 = intersections[1];

            if in1.edge1 == in2.edge1 && in1.edge2 != in2.edge2 {
                self.configuration_2p_shared(in1, in2, triangle1, triangle2, geo);
                return Ok(true);
            } else if in1.edge2 == in2.edge2 && in1.edge1 != in2.edge1 {
                self.configuration_2p_shared(in2.swap(), in1.swap(), triangle2, triangle1, geo);
                return Ok(true);
            } else if in1.edge1 != in2.edge1 && in1.edge2 != in2.edge2 {
                let r = self.configuration_2p_distinct(in1, in2, triangle1, triangle2, geo);
                return match r {
                    Ok(_) => Ok(true),
                    Err(e) => Err(e),
                };
            } else {
                return Err(ResolveError::AmbiguousPair);
            }
        }

        if intersections.len() == 4 {
            let interior1 = self.first_corner_inside(geo, triangle1, triangle2);
            let interior2 = self.first_corner_inside(geo, triangle2, triangle1);

            match (interior1, interior2) {
                (None, None) => {
                    self.configuration_4p_00(triangle1, triangle2, intersections);
                    return Ok(true);
                },
                (Some(i1), None) => {
                    let r = self.configuration_4p_01(triangle1, triangle2, i1, intersections);
                    return match r {
                        Ok(_) => Ok(true),
                        Err(e) => Err(e),
                    };
                },
                (None, Some(i2)) => {
                    let n = intersections.len();
                    let mut swapped: Vec<EdgeIntersection> = Vec::new();
                    let mut k: usize = 0;
                    while k < n
                        invariant
                            n == intersections@.len(),
                            edges_in_range(intersections@),
                            k <= n,
                            swapped@.len() == k as int,
                            edges_in_range(swapped@),
                        decreases n - k,
                    {
                        swapped.push(intersections[k].swap());
                        k = k + 1;
                    }
                    let r = self.configuration_4p_01(triangle2, triangle1, i2, swapped);
                    return match r {
                        Ok(_) => Ok(true),
                        Err(e) => Err(e),
                    };
                },
                (Some(i1), Some(i2)) => {
                    let r = self.configuration_4p_11(
                        triangle1,
                        triangle2,
                        i1,
                        i2,
                        intersections,
                    );
                    return match r {
                        Ok(_) => Ok(true),
                        Err(e) => Err(e),
                    };
                },
            }
        }

        if intersections.len() == 6 {
            // the hex-star overlap is not handled: no change is reported
            self.configuration_6p(triangle1, triangle2);
            return Ok(false);
        }

        Ok(false)
    }

    /// Inserts vertices at all coplanar crossings of edges and rewrites the
    /// crossed triangles into a non-overlapping set.
    ///
    /// Every successful reconfiguration counts against `max_changes`; when
    /// the budget is used up the resolver returns at once, leaving the rest
    /// of the mesh unresolved — bounded partial progress the caller must
    /// anticipate. After a successful reconfiguration the candidates for the
    /// same first triangle are re-scanned from the top, because its geometry
    /// may have changed. A triangle fully containing a coplanar one zeroes
    /// the contained triangle's indices (a soft delete) without counting
    /// against the budget. Returns the number of reconfigurations performed,
    /// or the classification error for a crossing pattern that plane
    /// geometry rules out.
    pub fn cut_complanar_edges<G: PlaneGeometry>(&mut self, max_changes: u32, geo: &G) -> (res:
        Result<u32, ResolveError>)
        requires
            old(self).wf(),
            old(self).spec_vertices().len() + 4 * (max_changes as int) <= T::max_value() + 1,
        ensures
            final(self).wf(),
            final(self).spec_uv() is None,
            final(self).spec_normals() is None,
            final(self).spec_topology() == old(self).spec_topology(),
            final(self).spec_vertices().len() <= old(self).spec_vertices().len() + 4 * (
            max_changes as int),
            final(self).spec_vertices().subrange(0, old(self).spec_vertices().len() as int)
                =~= old(self).spec_vertices(),
            final(self).spec_indices().len() >= old(self).spec_indices().len(),
            res matches Ok(c) ==> c <= max_changes,
            // each counted change inserts two or four crossing points, so
            // the returned count is backed by real vertex insertions
            res matches Ok(c) ==> (final(self).spec_vertices().len() >= old(
                self,
            ).spec_vertices().len() + 2 * (c as int) && final(self).spec_vertices().len() <= old(
                self,
            ).spec_vertices().len() + 4 * (c as int)),
            // with no budget nothing is rewritten: only the attribute
            // arrays are dropped
            max_changes == 0 ==> (res == Ok::<u32, ResolveError>(0) && final(self).spec_indices()
                == old(self).spec_indices() && final(self).spec_vertices() == old(
                self,
            ).spec_vertices()),
    {
        self.uv = None;
        self.normals = None;
        proof {
            crate::mesh::PMesh::lemma_wf_preserved(*old(self), *self);
            assert(self.spec_vertices().subrange(0, old(self).spec_vertices().len() as int)
                =~= old(self).spec_vertices());
        }
        if max_changes == 0 {
            return Ok(0);
        }

        let mut changes: u32 = 0;
        let mut triangle1: usize = 0;
        loop
            invariant
                self.resolving(),
                self.spec_topology() == old(self).spec_topology(),
                max_changes >= 1,
                changes < max_changes,
                self.spec_vertices().len() >= old(self).spec_vertices().len() + 2 * (
                changes as int),
                self.spec_vertices().len() <= old(self).spec_vertices().len() + 4 * (
                changes as int),
                old(self).spec_vertices().len() + 4 * (max_changes as int) <= T::max_value() + 1,
                old(self).spec_vertices().len() <= self.spec_vertices().len(),
                self.spec_vertices().subrange(0, old(self).spec_vertices().len() as int) =~= old(
                    self,
                ).spec_vertices(),
                triangle1 as int <= self.spec_indices().len() / 3,
                self.spec_indices().len() >= old(self).spec_indices().len(),
            decreases (max_changes - changes) as int, self.spec_indices().len() / 3 + 1
                - triangle1 as int,
        {
            let tri_count = self.indices.len() / 3;
            if triangle1 >= tri_count {
                break ;
            }
            proof {
                assert(3 * (triangle1 as int) + 2 < self.spec_indices().len());
            }

            let t1v = self.triangle_at(triangle1);
            if geo.is_degenerate(&t1v) {
                triangle1 = triangle1 + 1;
                continue ;
            }

            let mut again = false;
            let ghost ilen0 = self.spec_indices().len();
            let ghost vlen0 = self.spec_vertices().len();
            let ghost changes0 = changes;

            // compare with all following triangles
            let mut triangle2 = triangle1 + 1;
            while triangle2 < tri_count
                invariant_except_break
                    self.resolving(),
                    self.spec_topology() == old(self).spec_topology(),
                    max_changes >= 1,
                    changes < max_changes,
                    changes == changes0,
                    again == false,
                    old(self).spec_vertices().len() <= self.spec_vertices().len(),
                    self.spec_vertices().len() >= old(self).spec_vertices().len() + 2 * (
                    changes as int),
                    self.spec_vertices().len() <= old(self).spec_vertices().len() + 4 * (
                    changes as int),
                    old(self).spec_vertices().len() + 4 * (max_changes as int) <= T::max_value()
                        + 1,
                    self.spec_vertices().subrange(0, old(self).spec_vertices().len() as int)
                        =~= old(self).spec_vertices(),
                    3 * tri_count as int <= self.spec_indices().len(),
                    triangle1 < tri_count,
                    triangle1 < triangle2,
                    self.spec_indices().len() == ilen0,
                    self.spec_vertices().len() == vlen0,
                    old(self).spec_indices().len() <= ilen0,
                ensures
                    self.resolving(),
                    self.spec_topology() == old(self).spec_topology(),
                    max_changes >= 1,
                    changes < max_changes,
                    changes0 <= changes,
                    old(self).spec_vertices().len() <= self.spec_vertices().len(),
                    self.spec_vertices().len() >= old(self).spec_vertices().len() + 2 * (
                    changes as int),
                    self.spec_vertices().len() <= old(self).spec_vertices().len() + 4 * (
                    changes as int),
                    old(self).spec_vertices().len() + 4 * (max_changes as int) <= T::max_value()
                        + 1,
                    self.spec_vertices().subrange(0, old(self).spec_vertices().len() as int)
                        =~= old(self).spec_vertices(),
                    ilen0 <= self.spec_indices().len(),
                    self.spec_indices().len() >= old(self).spec_indices().len(),
                    triangle1 < tri_count,
                    !again ==> (self.spec_indices().len() == ilen0 && changes == changes0),
                    again ==> changes0 < changes,
                decreases tri_count - triangle2,
            {
                proof {
                    assert(3 * (triangle2 as int) + 2 < self.spec_indices().len());
                }
                let t2v = self.triangle_at(triangle2);
                if geo.is_degenerate(&t2v) {
                    triangle2 = triangle2 + 1;
                    continue ;
                }

                let t1v = self.triangle_at(triangle1);
                if !geo.is_coplanar(&t1v, &t2v) {
                    triangle2 = triangle2 + 1;
                    continue ;
                }

                if geo.contains_triangle(&t1v, &t2v) {
                    // remove triangle2 (a soft delete: the slot becomes a
                    // zero-area triangle, never physically removed)
                    proof {
                        T::max_value_fits();
                        assert(0 <= self.spec_indices()[3 * (triangle2 as int)]
                            < self.spec_vertices().len());
                    }
                    let zero = T::new(0);
                    self.indices.overwrite(triangle2, zero, zero, zero);
                    proof {
                        assert(self.wf());
                        assert(self.spec_vertices().subrange(
                            0,
                            old(self).spec_vertices().len() as int,
                        ) =~= old(self).spec_vertices());
                    }
                }

                let mut intersections: Vec<EdgeIntersection> = Vec::new();
                let idx_len: usize = self.indices.len();
                let mut edge1: usize = 0;
                while edge1 < 3
                    invariant
                        self.resolving(),
                        idx_len as int == self.spec_indices().len(),
                        3 * (triangle1 as int) + 2 < self.spec_indices().len(),
                        3 * (triangle2 as int) + 2 < self.spec_indices().len(),
                        edge1 <= 3,
                        edges_in_range(intersections@),
                    decreases 3 - edge1,
                {
                    // consider the edge from pos1a to pos1b
                    let pos1a = triangle1 * 3 + edge1;
                    let pos1b = triangle1 * 3 + (edge1 + 1) % 3;
                    let i1a = self.indices.at(pos1a).index();
                    let i1b = self.indices.at(pos1b).index();
                    let v1a = self.vec3_at(i1a);
                    let v1b = self.vec3_at(i1b);
                    let mut edge2: usize = 0;
                    while edge2 < 3
                        invariant
                            self.resolving(),
                            idx_len as int == self.spec_indices().len(),
                            3 * (triangle1 as int) + 2 < self.spec_indices().len(),
                            3 * (triangle2 as int) + 2 < self.spec_indices().len(),
                            edge1 < 3,
                            edge2 <= 3,
                            edges_in_range(intersections@),
                        decreases 3 - edge2,
                    {
                        // consider the edge from pos2a to pos2b
                        let pos2a = triangle2 * 3 + edge2;
                        let pos2b = triangle2 * 3 + (edge2 + 1) % 3;
                        let i2a = self.indices.at(pos2a).index();
                        let i2b = self.indices.at(pos2b).index();

                        // two edges sharing a vertex cannot produce a proper
                        // crossing
                        if i2a == i1a || i2a == i1b || i2b == i1a || i2b == i1b {
                            edge2 = edge2 + 1;
                            continue ;
                        }

                        let v2a = self.vec3_at(i2a);
                        let v2b = self.vec3_at(i2b);

                        // only interior crossings count: the geometry excludes
                        // crossings at the segment endpoints
                        if let Some(intersection) = geo.segment_intersection(v1a, v1b, v2a, v2b) {
                            intersections.push(
                                EdgeIntersection { edge1, edge2, intersection },
                            );
                        }
                        edge2 = edge2 + 1;
                    }
                    edge1 = edge1 + 1;
                }

                let ghost pre = *self;
                let changed = match self.process_edge_intersections(
                    intersections,
                    triangle1,
                    triangle2,
                    geo,
                ) {
                    Ok(b) => b,
                    Err(e) => {
                        proof {
                            lemma_prefix_chain(
                                old(self).spec_vertices(),
                                pre.spec_vertices(),
                                self.spec_vertices(),
                            );
                        }
                        return Err(e);
                    },
                };
                proof {
                    lemma_prefix_chain(
                        old(self).spec_vertices(),
                        pre.spec_vertices(),
                        self.spec_vertices(),
                    );
                }

                if changed {
                    again = true;
                    changes = changes + 1;
                    if changes == max_changes {
                        return Ok(changes);
                    }
                    break ;
                }
                triangle2 = triangle2 + 1;
            }

            if !again {
                triangle1 = triangle1 + 1;
            }
        }

        self.remove_coplanar_vertices();
        Ok(changes)
    }

    /// Intended to remove vertices that sit in the middle of a flat surface
    /// after resolution; deliberately not implemented yet, carried as an
    /// explicit no-op.
    pub fn remove_coplanar_vertices(&mut self)
        ensures
            *final(self) == *old(self),
    {
    }
}

/// A sequence that keeps a longer sequence's prefix, which itself keeps a
/// still shorter one's, keeps the shortest prefix too.
proof fn lemma_prefix_chain(a: Seq<glam::Vec3>, b: Seq<glam::Vec3>, c: Seq<glam::Vec3>)
    requires
        a.len() <= b.len() <= c.len(),
        b.subrange(0, a.len() as int) =~= a,
        c.subrange(0, b.len() as int) =~= b,
    ensures
        c.subrange(0, a.len() as int) =~= a,
{
    assert forall|i: int| 0 <= i < a.len() implies c.subrange(0, a.len() as int)[i] == a[i] by {
        assert(c.subrange(0, b.len() as int)[i] == b[i]);
        assert(b.subrange(0, a.len() as int)[i] == a[i]);
    }
}

/// How many distinct values appear among four edge numbers.
fn distinct_of_four(a: usize, b: usize, c: usize, d: usize) -> (r: usize)
    requires
        a < 3,
        b < 3,
        c < 3,
        d < 3,
    ensures
        r as int == distinct_among_four(a as int, b as int, c as int, d as int),
{
    let seen0 = a == 0 || b == 0 || c == 0 || d == 0;
    let seen1 = a == 1 || b == 1 || c == 1 || d == 1;
    let seen2 = a == 2 || b == 2 || c == 2 || d == 2;
    let mut count: usize = 0;
    if seen0 {
        count = count + 1;
    }
    if seen1 {
        count = count + 1;
    }
    if seen2 {
        count = count + 1;
    }
    count
}

} // verus!
