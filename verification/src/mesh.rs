//! The indexed mesh: a vertex buffer, an index buffer over it, optional
//! per-vertex UV coordinates, optional per-vertex normals, and a topology
//! tag.
//!
//! Invariants, kept by every operation: every index value is strictly less
//! than the vertex count, and the UV and normal arrays, where present, hold
//! exactly one entry per vertex.

use vstd::prelude::*;

use crate::geometry::Triangle;
use crate::index_type::IndexType;
use crate::indices::{converted_indices, shifted_by, PIndices};
use crate::math::{vec3_cross, vec3_cross_of, vec3_difference_of, vec3_normalize, vec3_normalized_of, vec3_product_of, vec3_sub, vec3_sum_of, vec3_swapped_yz_of};
use crate::vertices::PVertices;

verus! {

/// Every position of `post` equals some vertex that `src_indices` refers to
/// in `src_vertices`: nothing new is invented by a vertex-merge pass.
pub open spec fn merged_from(
    post: Seq<glam::Vec3>,
    src_vertices: Seq<glam::Vec3>,
    src_indices: Seq<int>,
) -> bool {
    forall|j: int|
        0 <= j < post.len() ==> exists|k: int|
            0 <= k < src_indices.len() && #[trigger] post[j] == src_vertices[src_indices[k]]
}

/// Some position of `indices` holds the value `j`.
pub open spec fn references(indices: Seq<int>, j: int) -> bool {
    exists|k: int| 0 <= k < indices.len() && indices[k] == j
}

/// Some position of the typed index buffer holds the value `j`.
pub(crate) open spec fn references_value<T: IndexType>(indices: Seq<T>, j: int) -> bool {
    exists|k: int| 0 <= k < indices.len() && (#[trigger] indices[k]).value() == j
}

/// Appending a vertex that the source refers to keeps `merged_from`.
proof fn lemma_merged_from_push(
    post: Seq<glam::Vec3>,
    v: glam::Vec3,
    src_vertices: Seq<glam::Vec3>,
    src_indices: Seq<int>,
    k: int,
)
    requires
        merged_from(post, src_vertices, src_indices),
        0 <= k < src_indices.len(),
        v == src_vertices[src_indices[k]],
    ensures
        merged_from(post.push(v), src_vertices, src_indices),
{
    assert forall|j: int| 0 <= j < post.push(v).len() implies exists|k2: int|
        0 <= k2 < src_indices.len() && #[trigger] post.push(v)[j] == src_vertices[
            src_indices[k2]
        ] by {
        if j < post.len() {
            assert(post.push(v)[j] == post[j]);
            assert(exists|k2: int|
                0 <= k2 < src_indices.len() && #[trigger] post[j] == src_vertices[
                    src_indices[k2]
                ]);
        } else {
            assert(post.push(v)[j] == v);
            assert(0 <= k < src_indices.len() && post.push(v)[j] == src_vertices[
                src_indices[k]
            ]);
        }
    }
}

/// The unit normal of the `k`-th triangle of an indexed triangle list: the
/// normalized cross product of two of its edge vectors.
pub open spec fn face_flat_normal(
    vertices: Seq<glam::Vec3>,
    indices: Seq<int>,
    k: int,
) -> glam::Vec3 {
    vec3_normalized_of(
        vec3_cross_of(
            vec3_difference_of(vertices[indices[3 * k + 1]], vertices[indices[3 * k]]),
            vec3_difference_of(vertices[indices[3 * k + 2]], vertices[indices[3 * k]]),
        ),
    )
}

/// How the index buffer groups triangles: independent triples, or
/// overlapping sliding windows.
#[derive(Clone, Copy, Debug, PartialEq, Eq, Structural)]
pub enum Topology {
    TriangleList,
    TriangleStrip,
}

/// A mesh with vertices, indices of type `T`, optional UV coordinates and
/// optional normals.
pub struct PMesh<T: IndexType> {
    pub(crate) vertices: PVertices,
    pub(crate) indices: PIndices<T>,
    pub(crate) uv: Option<Vec<glam::Vec2>>,
    pub(crate) normals: Option<Vec<glam::Vec3>>,
    pub(crate) topology: Topology,
}

impl<T: IndexType> PMesh<T> {
    /// The positions of the mesh, in insertion order.
    pub closed spec fn spec_vertices(&self) -> Seq<glam::Vec3> {
        self.vertices@
    }

    /// The values of the index buffer, in buffer order.
    pub closed spec fn spec_indices(&self) -> Seq<int> {
        self.indices@
    }

    /// The UV coordinates, one per vertex, if present.
    pub closed spec fn spec_uv(&self) -> Option<Seq<glam::Vec2>> {
        match self.uv {
            Some(ref uv) => Some(uv@),
            None => None,
        }
    }

    /// The normals, one per vertex, if present.
    pub closed spec fn spec_normals(&self) -> Option<Seq<glam::Vec3>> {
        match self.normals {
            Some(ref n) => Some(n@),
            None => None,
        }
    }

    /// The topology tag.
    pub closed spec fn spec_topology(&self) -> Topology {
        self.topology
    }

    /// The vertex view names the vertex-buffer field.
    pub(crate) broadcast proof fn lemma_spec_vertices(&self)
        ensures
            #[trigger] self.spec_vertices() == self.vertices@,
    {
    }

    /// The index view names the index-buffer field.
    pub(crate) broadcast proof fn lemma_spec_indices(&self)
        ensures
            #[trigger] self.spec_indices() == self.indices@,
    {
    }

    /// The UV view names the UV field.
    pub(crate) broadcast proof fn lemma_spec_uv(&self)
        ensures
            #[trigger] self.spec_uv() == match self.uv {
                Some(uv) => Some(uv@),
                None => None::<Seq<glam::Vec2>>,
            },
    {
    }

    /// The normal view names the normal field.
    pub(crate) broadcast proof fn lemma_spec_normals(&self)
        ensures
            #[trigger] self.spec_normals() == match self.normals {
                Some(n) => Some(n@),
                None => None::<Seq<glam::Vec3>>,
            },
    {
    }

    /// The topology view names the topology field.
    pub(crate) broadcast proof fn lemma_spec_topology(&self)
        ensures
            #[trigger] self.spec_topology() == self.topology,
    {
    }

    /// Well-formedness: every index value lies strictly below the vertex
    /// count, and the optional attribute arrays hold one entry per vertex.
    pub open spec fn wf(&self) -> bool {
        &&& forall|i: int|
            0 <= i < self.spec_indices().len() ==> 0 <= #[trigger] self.spec_indices()[i]
                < self.spec_vertices().len()
        &&& match self.spec_uv() {
            Some(uv) => uv.len() == self.spec_vertices().len(),
            None => true,
        }
        &&& match self.spec_normals() {
            Some(n) => n.len() == self.spec_vertices().len(),
            None => true,
        }
    }

    /// Well-formedness carries over to a mesh with the same indices, the
    /// same vertex count, and attribute arrays of the right length.
    pub(crate) proof fn lemma_wf_preserved(pre: Self, post: Self)
        requires
            pre.wf(),
            post.spec_indices() == pre.spec_indices(),
            post.spec_vertices().len() == pre.spec_vertices().len(),
            match post.spec_uv() {
                Some(u) => u.len() == post.spec_vertices().len(),
                None => true,
            },
            match post.spec_normals() {
                Some(n) => n.len() == post.spec_vertices().len(),
                None => true,
            },
        ensures
            post.wf(),
    {
        assert forall|i: int|
            0 <= i < post.spec_indices().len() implies 0 <= #[trigger] post.spec_indices()[i]
            < post.spec_vertices().len() by {
            assert(0 <= pre.spec_indices()[i] < pre.spec_vertices().len());
        }
    }

    /// Creates a new empty mesh, with an empty UV array and a triangle-list
    /// topology.
    pub fn new() -> (r: Self)
        ensures
            r.wf(),
            r.spec_vertices() == Seq::<glam::Vec3>::empty(),
            r.spec_indices() == Seq::<int>::empty(),
            r.spec_uv() == Some(Seq::<glam::Vec2>::empty()),
            r.spec_normals() is None,
            r.spec_topology() == Topology::TriangleList,
    {
        let r = PMesh {
            vertices: PVertices::new(),
            indices: PIndices::<T>::new(),
            uv: Some(Vec::new()),
            normals: None,
            topology: Topology::TriangleList,
        };
        proof {
            assert(r.spec_uv()->0 =~= Seq::<glam::Vec2>::empty());
        }
        r
    }

    /// Creates a `PMesh` from vertices, indices, UVs, normals, and the
    /// topology. Every index must refer to one of the vertices, and the
    /// attribute arrays, where given, must hold one entry per vertex.
    pub fn build_ex(
        vertices: Vec<glam::Vec3>,
        indices: Vec<T>,
        uv: Option<Vec<glam::Vec2>>,
        normals: Option<Vec<glam::Vec3>>,
        topology: Topology,
    ) -> (r: Self)
        requires
            forall|i: int|
                0 <= i < indices@.len() ==> (#[trigger] indices@[i].value()) < vertices@.len(),
            match uv {
                Some(u) => u@.len() == vertices@.len(),
                None => true,
            },
            match normals {
                Some(n) => n@.len() == vertices@.len(),
                None => true,
            },
        ensures
            r.wf(),
            r.spec_vertices() == vertices@,
            r.spec_indices().len() == indices@.len(),
            forall|i: int|
                0 <= i < indices@.len() ==> #[trigger] r.spec_indices()[i] == indices@[i].value(),
            r.spec_uv() == match uv {
                Some(u) => Some(u@),
                None => None::<Seq<glam::Vec2>>,
            },
            r.spec_normals() == match normals {
                Some(n) => Some(n@),
                None => None::<Seq<glam::Vec3>>,
            },
            r.spec_topology() == topology,
    {
        let r = PMesh {
            vertices: PVertices::build(vertices),
            indices: PIndices::build(indices),
            uv,
            normals,
            topology,
        };
        proof {
            r.indices.values_in_range();
        }
        r
    }

    /// Creates a triangle-list `PMesh` from vertices, plain `u32` indices,
    /// and optional UVs, converting each index to the chosen index type.
    pub fn build(
        vertices: Vec<glam::Vec3>,
        indices: Vec<u32>,
        uv: Option<Vec<glam::Vec2>>,
    ) -> (r: Self)
        requires
            forall|i: int|
                0 <= i < indices@.len() ==> (#[trigger] indices@[i]) as int <= T::max_value(),
            forall|i: int|
                0 <= i < indices@.len() ==> ((#[trigger] indices@[i]) as int) < vertices@.len(),
            match uv {
                Some(u) => u@.len() == vertices@.len(),
                None => true,
            },
        ensures
            r.wf(),
            r.spec_vertices() == vertices@,
            r.spec_indices().len() == indices@.len(),
            forall|i: int|
                0 <= i < indices@.len() ==> #[trigger] r.spec_indices()[i] == indices@[i] as int,
            r.spec_uv() == match uv {
                Some(u) => Some(u@),
                None => None::<Seq<glam::Vec2>>,
            },
            r.spec_normals() is None,
            r.spec_topology() == Topology::TriangleList,
    {
        let n = indices.len();
        let mut converted: Vec<T> = Vec::new();
        let mut k: usize = 0;
        while k < n
            invariant
                n == indices@.len(),
                k <= n,
                converted@.len() == k as int,
                forall|i: int|
                    0 <= i < n as int ==> (#[trigger] indices@[i]) as int <= T::max_value(),
                forall|i: int|
                    0 <= i < k as int ==> (#[trigger] converted@[i].value()) == indices@[i] as int,
            decreases n - k,
        {
            converted.push(T::new(indices[k] as usize));
            k = k + 1;
        }
        PMesh::build_ex(vertices, converted, uv, None, Topology::TriangleList)
    }

    /// Returns the vertices of the mesh.
    pub fn get_vertices(&self) -> (r: &PVertices)
        ensures
            r@ == self.spec_vertices(),
    {
        &self.vertices
    }

    /// Returns the indices of the mesh.
    pub fn get_indices(&self) -> (r: &PIndices<T>)
        ensures
            r@ == self.spec_indices(),
    {
        &self.indices
    }

    /// Returns the UV coordinates of the mesh, if present.
    pub fn get_uv(&self) -> (r: Option<&Vec<glam::Vec2>>)
        ensures
            match r {
                Some(uv) => self.spec_uv() == Some(uv@),
                None => self.spec_uv() is None,
            },
    {
        self.uv.as_ref()
    }

    /// Returns the normals of the mesh, if present.
    pub fn get_normals(&self) -> (r: Option<&Vec<glam::Vec3>>)
        ensures
            match r {
                Some(n) => self.spec_normals() == Some(n@),
                None => self.spec_normals() is None,
            },
    {
        self.normals.as_ref()
    }

    /// Returns the topology tag of the mesh.
    pub fn get_topology(&self) -> (r: Topology)
        ensures
            r == self.spec_topology(),
    {
        self.topology
    }

    /// Replaces the UV array. Where given, it must hold one entry per
    /// vertex.
    pub fn set_uv(&mut self, uv: Option<Vec<glam::Vec2>>)
        requires
            match uv {
                Some(ref u) => u@.len() == old(self).spec_vertices().len(),
                None => true,
            },
        ensures
            old(self).wf() ==> final(self).wf(),
            final(self).spec_uv() == match uv {
                Some(u) => Some(u@),
                None => None::<Seq<glam::Vec2>>,
            },
            final(self).spec_vertices() == old(self).spec_vertices(),
            final(self).spec_indices() == old(self).spec_indices(),
            final(self).spec_normals() == old(self).spec_normals(),
            final(self).spec_topology() == old(self).spec_topology(),
    {
        self.uv = uv;
        proof {
            if old(self).wf() {
                Self::lemma_wf_preserved(*old(self), *self);
            }
        }
    }

    /// Replaces the normal array. Where given, it must hold one entry per
    /// vertex.
    pub fn set_normals(&mut self, normals: Option<Vec<glam::Vec3>>)
        requires
            match normals {
                Some(ref n) => n@.len() == old(self).spec_vertices().len(),
                None => true,
            },
        ensures
            old(self).wf() ==> final(self).wf(),
            final(self).spec_normals() == match normals {
                Some(n) => Some(n@),
                None => None::<Seq<glam::Vec3>>,
            },
            final(self).spec_vertices() == old(self).spec_vertices(),
            final(self).spec_indices() == old(self).spec_indices(),
            final(self).spec_uv() == old(self).spec_uv(),
            final(self).spec_topology() == old(self).spec_topology(),
    {
        self.normals = normals;
        proof {
            if old(self).wf() {
                Self::lemma_wf_preserved(*old(self), *self);
            }
        }
    }

    /// Replaces every position. The count may not change, so the index
    /// buffer and the attribute arrays stay valid.
    pub fn replace_positions(&mut self, vertices: Vec<glam::Vec3>)
        requires
            vertices@.len() == old(self).spec_vertices().len(),
        ensures
            old(self).wf() ==> final(self).wf(),
            final(self).spec_vertices() == vertices@,
            final(self).spec_indices() == old(self).spec_indices(),
            final(self).spec_uv() == old(self).spec_uv(),
            final(self).spec_normals() == old(self).spec_normals(),
            final(self).spec_topology() == old(self).spec_topology(),
    {
        self.vertices.replace_positions(vertices);
        proof {
            if old(self).wf() {
                Self::lemma_wf_preserved(*old(self), *self);
            }
        }
    }

    /// Returns the position at the given vertex index.
    pub fn vec3_at(&self, i: usize) -> (r: glam::Vec3)
        requires
            (i as int) < self.spec_vertices().len(),
        ensures
            r == self.spec_vertices()[i as int],
    {
        self.vertices.vec(i)
    }

    /// Returns the geometric view of the triangle in slot `i` of the index
    /// buffer, read as a triangle list.
    pub fn triangle_at(&self, i: usize) -> (r: Triangle)
        requires
            self.wf(),
            3 * (i as int) + 2 < self.spec_indices().len(),
        ensures
            r.a == self.spec_vertices()[self.spec_indices()[3 * i as int]],
            r.b == self.spec_vertices()[self.spec_indices()[3 * i as int + 1]],
            r.c == self.spec_vertices()[self.spec_indices()[3 * i as int + 2]],
    {
        let n: usize = self.indices.len();
        Triangle {
            a: self.vertices.vec(self.indices.at(3 * i).index()),
            b: self.vertices.vec(self.indices.at(3 * i + 1).index()),
            c: self.vertices.vec(self.indices.at(3 * i + 2).index()),
        }
    }

    /// Returns the geometric view of the triangle with the three given
    /// vertex indices.
    pub fn triangle_ex(&self, i: T, j: T, k: T) -> (r: Triangle)
        requires
            i.value() < self.spec_vertices().len(),
            j.value() < self.spec_vertices().len(),
            k.value() < self.spec_vertices().len(),
        ensures
            r.a == self.spec_vertices()[i.value()],
            r.b == self.spec_vertices()[j.value()],
            r.c == self.spec_vertices()[k.value()],
    {
        proof {
            i.value_in_range();
            j.value_in_range();
            k.value_in_range();
        }
        Triangle {
            a: self.vertices.vec(i.index()),
            b: self.vertices.vec(j.index()),
            c: self.vertices.vec(k.index()),
        }
    }

    /// Translates the mesh by the given vector.
    pub fn translate(&mut self, d: glam::Vec3)
        ensures
            old(self).wf() ==> final(self).wf(),
            final(self).spec_vertices().len() == old(self).spec_vertices().len(),
            forall|i: int|
                0 <= i < old(self).spec_vertices().len() ==> final(self).spec_vertices()[i]
                    == vec3_sum_of(#[trigger] old(self).spec_vertices()[i], d),
            final(self).spec_indices() == old(self).spec_indices(),
            final(self).spec_uv() == old(self).spec_uv(),
            final(self).spec_normals() == old(self).spec_normals(),
            final(self).spec_topology() == old(self).spec_topology(),
    {
        self.vertices.translate(d);
        proof {
            if old(self).wf() {
                Self::lemma_wf_preserved(*old(self), *self);
            }
        }
    }

    /// Scales the mesh componentwise by the given vector.
    pub fn scale(&mut self, s: glam::Vec3)
        ensures
            old(self).wf() ==> final(self).wf(),
            final(self).spec_vertices().len() == old(self).spec_vertices().len(),
            forall|i: int|
                0 <= i < old(self).spec_vertices().len() ==> final(self).spec_vertices()[i]
                    == vec3_product_of(#[trigger] old(self).spec_vertices()[i], s),
            final(self).spec_indices() == old(self).spec_indices(),
            final(self).spec_uv() == old(self).spec_uv(),
            final(self).spec_normals() == old(self).spec_normals(),
            final(self).spec_topology() == old(self).spec_topology(),
    {
        self.vertices.scale(s);
        proof {
            if old(self).wf() {
                Self::lemma_wf_preserved(*old(self), *self);
            }
        }
    }

    /// Exchanges the second and third coordinate of every vertex: an
    /// axis-convention adapter for downstream consumers.
    pub fn flip_yz(&mut self)
        ensures
            old(self).wf() ==> final(self).wf(),
            final(self).spec_vertices().len() == old(self).spec_vertices().len(),
            forall|i: int|
                0 <= i < old(self).spec_vertices().len() ==> final(self).spec_vertices()[i]
                    == vec3_swapped_yz_of(#[trigger] old(self).spec_vertices()[i]),
            forall|i: int|
                0 <= i < old(self).spec_vertices().len() ==> vec3_swapped_yz_of(
                    #[trigger] final(self).spec_vertices()[i],
                ) == old(self).spec_vertices()[i],
            final(self).spec_indices() == old(self).spec_indices(),
            final(self).spec_uv() == old(self).spec_uv(),
            final(self).spec_normals() == old(self).spec_normals(),
            final(self).spec_topology() == old(self).spec_topology(),
    {
        self.vertices.flip_yz();
        proof {
            if old(self).wf() {
                Self::lemma_wf_preserved(*old(self), *self);
            }
        }
    }

    /// Appends a reversed copy of the index buffer, so that every face also
    /// appears with the opposite winding (for double-sided rendering).
    pub fn add_backfaces(&mut self)
        requires
            old(self).wf(),
        ensures
            final(self).wf(),
            final(self).spec_indices() =~= old(self).spec_indices() + old(
                self,
            ).spec_indices().reverse(),
            final(self).spec_vertices() == old(self).spec_vertices(),
            final(self).spec_uv() == old(self).spec_uv(),
            final(self).spec_normals() == old(self).spec_normals(),
            final(self).spec_topology() == old(self).spec_topology(),
    {
        self.indices.add_backfaces();
        proof {
            let pre = old(self).spec_indices();
            assert forall|i: int|
                0 <= i < self.spec_indices().len() implies 0 <= #[trigger] self.spec_indices()[i]
                < self.spec_vertices().len() by {
                if i < pre.len() {
                    assert(self.spec_indices()[i] == pre[i]);
                    assert(0 <= pre[i] < old(self).spec_vertices().len());
                } else {
                    assert(self.spec_indices()[i] == pre.reverse()[i - pre.len()]);
                    assert(pre.reverse()[i - pre.len()] == pre[pre.len() - 1 - (i - pre.len())]);
                    assert(0 <= pre[pre.len() - 1 - (i - pre.len())] < old(
                        self,
                    ).spec_vertices().len());
                }
            }
        }
    }

    /// Converts the mesh to the given topology by rewriting the indices;
    /// converting to the topology it already has leaves it unchanged.
    pub fn set_topology(&mut self, topology: Topology)
        requires
            old(self).wf(),
        ensures
            final(self).wf(),
            final(self).spec_indices() =~= converted_indices(
                old(self).spec_indices(),
                old(self).spec_topology(),
                topology,
            ),
            final(self).spec_topology() == topology,
            final(self).spec_vertices() == old(self).spec_vertices(),
            final(self).spec_uv() == old(self).spec_uv(),
            final(self).spec_normals() == old(self).spec_normals(),
    {
        let ghost pre = self.spec_indices();
        let ghost pre_len = pre.len();
        match (self.topology, topology) {
            (Topology::TriangleList, Topology::TriangleStrip) => {
                self.indices = self.indices.triangle_list_to_triangle_strip();
            },
            (Topology::TriangleStrip, Topology::TriangleList) => {
                self.indices = self.indices.triangle_strip_to_triangle_list();
            },
            _ => {},
        }
        self.topology = topology;
        proof {
            assert forall|i: int|
                0 <= i < self.spec_indices().len() implies 0 <= #[trigger] self.spec_indices()[i]
                < self.spec_vertices().len() by {
                if old(self).spec_topology() == Topology::TriangleList && topology
                    == Topology::TriangleStrip {
                    assert(self.spec_indices()[i] == pre[crate::indices::strip_source(i)]);
                    assert(i / 5 < pre_len / 3);
                    assert(3 * (i / 5) + 2 < pre_len);
                    assert(0 <= crate::indices::strip_source(i) < pre_len);
                } else if old(self).spec_topology() == Topology::TriangleStrip && topology
                    == Topology::TriangleList {
                    assert(self.spec_indices()[i] == pre[i / 3 + i % 3]);
                    assert(i / 3 < pre_len - 2);
                    assert(0 <= i / 3 + i % 3 < pre_len);
                } else {
                    assert(self.spec_indices()[i] == pre[i]);
                }
            }
        }
    }

    /// Appends another mesh to this one: the other mesh's indices are
    /// converted to this mesh's topology if needed, re-based past the
    /// vertices already present, and all buffers are concatenated. If either
    /// side lacks UV data the result drops UV entirely. Normals are dropped:
    /// they are per-vertex and are not carried across an append.
    pub fn extend(&mut self, m: &PMesh<T>)
        requires
            old(self).wf(),
            m.wf(),
            old(self).spec_vertices().len() + m.spec_vertices().len() <= T::max_value() + 1,
            old(self).spec_vertices().len() <= T::max_value(),
        ensures
            final(self).wf(),
            final(self).spec_vertices() =~= old(self).spec_vertices() + m.spec_vertices(),
            final(self).spec_indices() =~= old(self).spec_indices() + shifted_by(
                converted_indices(m.spec_indices(), m.spec_topology(), old(self).spec_topology()),
                old(self).spec_vertices().len() as int,
            ),
            final(self).spec_uv() == match (old(self).spec_uv(), m.spec_uv()) {
                (Some(a), Some(b)) => Some(a + b),
                _ => None::<Seq<glam::Vec2>>,
            },
            final(self).spec_normals() is None,
            final(self).spec_topology() == old(self).spec_topology(),
    {
        let ghost conv_spec = converted_indices(
            m.spec_indices(),
            m.spec_topology(),
            self.spec_topology(),
        );
        let mut conv: PIndices<T> = if m.topology == self.topology {
            m.indices.copied()
        } else {
            match self.topology {
                Topology::TriangleStrip => m.indices.triangle_list_to_triangle_strip(),
                Topology::TriangleList => m.indices.triangle_strip_to_triangle_list(),
            }
        };
        proof {
            assert(conv@ =~= conv_spec);
            // every converted value is one of the other mesh's index values
            assert forall|i: int| 0 <= i < conv@.len() implies 0 <= #[trigger] conv@[i]
                < m.spec_vertices().len() by {
                conv.values_in_range();
                if m.spec_topology() != self.spec_topology() {
                    if m.spec_topology() == Topology::TriangleList {
                        assert(conv@[i] == m.spec_indices()[crate::indices::strip_source(i)]);
                    } else {
                        assert(conv@[i] == m.spec_indices()[i / 3 + i % 3]);
                    }
                }
            }
        }
        let offset = self.vertices.len();
        let off_t = T::new(offset);
        let f = |t: T| -> (r: T)
            requires
                t.value() + off_t.value() <= T::max_value(),
            ensures
                r.value() == t.value() + off_t.value(),
            { t.add(off_t) };
        let ghost conv_raw0 = conv.raw();
        proof {
            assert forall|i: int| 0 <= i < conv.raw().len() implies call_requires(
                f,
                (#[trigger] conv.raw()[i],),
            ) by {
                assert(conv.raw()[i].value() == conv@[i]);
            }
        }
        conv.map(f);
        proof {
            assert forall|i: int| 0 <= i < conv@.len() implies #[trigger] conv@[i] == conv_spec[i]
                + offset as int by {
                assert(call_ensures(f, (conv_raw0[i],), conv.raw()[i]));
                assert(conv_raw0[i].value() == conv_spec[i]);
            }
        }
        self.vertices.extend(&m.vertices);
        self.indices.extend(&conv);
        let new_uv: Option<Vec<glam::Vec2>> = match (&self.uv, &m.uv) {
            (Some(a), Some(b)) => {
                let mut u: Vec<glam::Vec2> = Vec::new();
                let na = a.len();
                let mut k: usize = 0;
                while k < na
                    invariant
                        na == a@.len(),
                        k <= na,
                        u@ =~= a@.subrange(0, k as int),
                    decreases na - k,
                {
                    u.push(a[k]);
                    k = k + 1;
                }
                let nb = b.len();
                let mut j: usize = 0;
                while j < nb
                    invariant
                        na == a@.len(),
                        nb == b@.len(),
                        j <= nb,
                        u@ =~= a@.subrange(0, na as int) + b@.subrange(0, j as int),
                    decreases nb - j,
                {
                    u.push(b[j]);
                    j = j + 1;
                }
                proof {
                    assert(u@ =~= a@ + b@);
                }
                Some(u)
            },
            _ => None,
        };
        self.uv = new_uv;
        self.normals = None;
        proof {
            assert(self.spec_indices() =~= old(self).spec_indices() + shifted_by(
                conv_spec,
                old(self).spec_vertices().len() as int,
            ));
            assert forall|i: int| 0 <= i < self.spec_indices().len() implies 0
                <= #[trigger] self.spec_indices()[i] < self.spec_vertices().len() by {
                if i >= old(self).spec_indices().len() {
                    let j = i - old(self).spec_indices().len();
                    assert(self.spec_indices()[i] == conv_spec[j] + old(
                        self,
                    ).spec_vertices().len());
                }
            }
        }
    }
}

impl<T: IndexType> PMesh<T> {
    /// Removes all index sharing by giving every index occurrence its own
    /// copy of the vertex (and of its UV and normal, where present); the
    /// index buffer becomes the identity sequence. Needed before computing
    /// flat per-face normals.
    pub fn duplicate(&mut self)
        requires
            old(self).wf(),
            old(self).spec_indices().len() <= T::max_value(),
        ensures
            final(self).wf(),
            final(self).spec_vertices().len() == old(self).spec_indices().len(),
            forall|k: int|
                0 <= k < old(self).spec_indices().len() ==> final(self).spec_vertices()[k] == old(
                    self,
                ).spec_vertices()[#[trigger] old(self).spec_indices()[k]],
            final(self).spec_indices() =~= Seq::new(
                old(self).spec_indices().len(),
                |i: int| i,
            ),
            final(self).spec_uv() is Some <==> old(self).spec_uv() is Some,
            final(self).spec_uv() matches Some(u) ==> u.len() == old(self).spec_indices().len()
                && (forall|k: int|
                0 <= k < old(self).spec_indices().len() ==> u[k] == old(self).spec_uv()->0[
                    #[trigger] old(self).spec_indices()[k]
                ]),
            final(self).spec_normals() is Some <==> old(self).spec_normals() is Some,
            final(self).spec_normals() matches Some(nn) ==> nn.len() == old(
                self,
            ).spec_indices().len() && (forall|k: int|
                0 <= k < old(self).spec_indices().len() ==> nn[k] == old(self).spec_normals()->0[
                    #[trigger] old(self).spec_indices()[k]
                ]),
            final(self).spec_topology() == old(self).spec_topology(),
    {
        let n = self.indices.len();
        let mut new_vertices: Vec<glam::Vec3> = Vec::new();
        let mut k: usize = 0;
        while k < n
            invariant
                self.wf(),
                n as int == self.spec_indices().len(),
                k <= n,
                new_vertices@.len() == k as int,
                forall|i: int|
                    0 <= i < k as int ==> new_vertices@[i] == self.spec_vertices()[
                        #[trigger] self.spec_indices()[i]
                    ],
            decreases n - k,
        {
            new_vertices.push(self.vertices.vec(self.indices.at(k).index()));
            k = k + 1;
        }

        let new_uv: Option<Vec<glam::Vec2>> = match &self.uv {
            Some(uv) => {
                let mut out: Vec<glam::Vec2> = Vec::new();
                let mut k2: usize = 0;
                while k2 < n
                    invariant
                        self.wf(),
                        n as int == self.spec_indices().len(),
                        self.spec_uv() == Some(uv@),
                        k2 <= n,
                        out@.len() == k2 as int,
                        forall|i: int|
                            0 <= i < k2 as int ==> out@[i] == uv@[
                                #[trigger] self.spec_indices()[i]
                            ],
                    decreases n - k2,
                {
                    out.push(uv[self.indices.at(k2).index()]);
                    k2 = k2 + 1;
                }
                Some(out)
            },
            None => None,
        };

        let new_normals: Option<Vec<glam::Vec3>> = match &self.normals {
            Some(normals) => {
                let mut out: Vec<glam::Vec3> = Vec::new();
                let mut k2: usize = 0;
                while k2 < n
                    invariant
                        self.wf(),
                        n as int == self.spec_indices().len(),
                        self.spec_normals() == Some(normals@),
                        k2 <= n,
                        out@.len() == k2 as int,
                        forall|i: int|
                            0 <= i < k2 as int ==> out@[i] == normals@[
                                #[trigger] self.spec_indices()[i]
                            ],
                    decreases n - k2,
                {
                    out.push(normals[self.indices.at(k2).index()]);
                    k2 = k2 + 1;
                }
                Some(out)
            },
            None => None,
        };

        self.vertices = PVertices::build(new_vertices);
        self.uv = new_uv;
        self.normals = new_normals;
        proof {
            T::max_value_fits();
        }
        let start = T::new(0);
        let end = T::new(n);
        self.indices.reset_to_interval(start, end);
    }

    /// Merges vertices that the given closeness test accepts, by linear scan
    /// against the vertices already kept, rewriting the index buffer to the
    /// merged set. Each rewritten slot refers either to its own old vertex
    /// or to an earlier-kept vertex the test accepted against it. UV
    /// coordinates are carried from the first occurrence; their correctness
    /// after this pass is not guaranteed.
    pub fn optimize<F: Fn(glam::Vec3, glam::Vec3) -> bool>(&mut self, near: &F)
        requires
            old(self).wf(),
            old(self).spec_indices().len() <= T::max_value() + 1,
            forall|a: glam::Vec3, b: glam::Vec3| call_requires(*near, (a, b)),
        ensures
            final(self).wf(),
            final(self).spec_indices().len() == old(self).spec_indices().len(),
            final(self).spec_vertices().len() <= old(self).spec_indices().len(),
            forall|k: int|
                0 <= k < final(self).spec_indices().len() ==> {
                    let v_old = old(self).spec_vertices()[#[trigger] old(self).spec_indices()[k]];
                    let v_new = final(self).spec_vertices()[final(self).spec_indices()[k]];
                    v_new == v_old || call_ensures(*near, (v_new, v_old), true)
                },
            merged_from(
                final(self).spec_vertices(),
                old(self).spec_vertices(),
                old(self).spec_indices(),
            ),
            forall|j2: int, j: int|
                #![trigger final(self).spec_vertices()[j2], final(self).spec_vertices()[j]]
                0 <= j2 < j < final(self).spec_vertices().len() ==> call_ensures(
                    *near,
                    (final(self).spec_vertices()[j2], final(self).spec_vertices()[j]),
                    false,
                ),
            forall|j: int|
                0 <= j < final(self).spec_vertices().len() ==> #[trigger] references(
                    final(self).spec_indices(),
                    j,
                ),
            final(self).spec_topology() == old(self).spec_topology(),
    {
        let n = self.indices.len();
        let mut new_indices: Vec<T> = Vec::new();
        let mut new_vertices: Vec<glam::Vec3> = Vec::new();
        let mut new_uv: Vec<glam::Vec2> = Vec::new();

        let mut k: usize = 0;
        while k < n
            invariant
                self.wf(),
                n as int == self.spec_indices().len(),
                n as int <= T::max_value() + 1,
                forall|a: glam::Vec3, b: glam::Vec3| call_requires(*near, (a, b)),
                k <= n,
                new_indices@.len() == k as int,
                new_vertices@.len() <= k as int,
                forall|i: int|
                    0 <= i < k as int ==> 0 <= (#[trigger] new_indices@[i]).value()
                        < new_vertices@.len(),
                forall|i: int|
                    0 <= i < k as int ==> {
                        let v_old = self.spec_vertices()[self.spec_indices()[i]];
                        let v_new = new_vertices@[(#[trigger] new_indices@[i]).value()];
                        v_new == v_old || call_ensures(*near, (v_new, v_old), true)
                    },
                merged_from(new_vertices@, self.spec_vertices(), self.spec_indices()),
                forall|j2: int, j: int|
                    #![trigger new_vertices@[j2], new_vertices@[j]]
                    0 <= j2 < j < new_vertices@.len() ==> call_ensures(
                        *near,
                        (new_vertices@[j2], new_vertices@[j]),
                        false,
                    ),
                forall|j: int|
                    0 <= j < new_vertices@.len() ==> #[trigger] references_value(
                        new_indices@,
                        j,
                    ),
                new_uv@.len() == if self.spec_uv() is Some {
                    new_vertices@.len()
                } else {
                    0
                },
            decreases n - k,
        {
            let v = self.vertices.vec(self.indices.at(k).index());

            let mut found: Option<usize> = None;
            let nv = new_vertices.len();
            let mut j: usize = 0;
            while j < nv
                invariant_except_break
                    found is None,
                invariant
                    nv == new_vertices@.len(),
                    forall|a: glam::Vec3, b: glam::Vec3| call_requires(*near, (a, b)),
                    j <= nv,
                    forall|j2: int|
                        0 <= j2 < j as int ==> call_ensures(
                            *near,
                            (#[trigger] new_vertices@[j2], v),
                            false,
                        ),
                ensures
                    found matches Some(p) ==> p < nv && call_ensures(
                        *near,
                        (new_vertices@[p as int], v),
                        true,
                    ),
                    found is None ==> forall|j2: int|
                        0 <= j2 < nv as int ==> call_ensures(
                            *near,
                            (#[trigger] new_vertices@[j2], v),
                            false,
                        ),
                decreases nv - j,
            {
                if near(new_vertices[j], v) {
                    found = Some(j);
                    break ;
                }
                j = j + 1;
            }

            let ghost ni0 = new_indices@;
            match found {
                Some(index) => {
                    new_indices.push(T::new(index));
                },
                None => {
                    new_indices.push(T::new(new_vertices.len()));
                    let ghost pre_nv = new_vertices@;
                    new_vertices.push(v);
                    proof {
                        lemma_merged_from_push(
                            pre_nv,
                            v,
                            self.spec_vertices(),
                            self.spec_indices(),
                            k as int,
                        );
                    }
                    if let Some(uv) = &self.uv {
                        new_uv.push(uv[self.indices.at(k).index()]);
                    }
                },
            }
            proof {
                assert forall|j: int| 0 <= j < new_vertices@.len() implies #[trigger] references_value(
                    new_indices@,
                    j,
                ) by {
                    if j < new_vertices@.len() - 1 || ni0.len() == new_indices@.len() - 1
                        && new_indices@[ni0.len() as int].value() != j {
                        if references_value(ni0, j) {
                            let i = choose|i: int|
                                0 <= i < ni0.len() && (#[trigger] ni0[i]).value() == j;
                            assert(new_indices@[i] == ni0[i]);
                        }
                    }
                    if !references_value(ni0, j) {
                        assert(new_indices@[ni0.len() as int].value() == j);
                    }
                }
            }
            k = k + 1;
        }

        let ghost nvs = new_vertices@;
        let ghost nis = new_indices@;
        let ghost nuv = new_uv@;
        self.vertices = PVertices::build(new_vertices);
        self.indices = PIndices::build(new_indices);
        self.uv = if new_uv.len() > 0 {
            Some(new_uv)
        } else {
            None
        };
        self.normals = None;
        proof {
            assert(self.spec_vertices() == nvs);
            assert forall|k2: int| 0 <= k2 < self.spec_indices().len() implies 0
                <= #[trigger] self.spec_indices()[k2] < self.spec_vertices().len() by {
                assert(self.spec_indices()[k2] == nis[k2].value());
                assert(0 <= nis[k2].value() < nvs.len());
            }
            assert(self.wf());
            assert forall|k2: int| 0 <= k2 < self.spec_indices().len() implies {
                let v_old = old(self).spec_vertices()[#[trigger] old(self).spec_indices()[k2]];
                let v_new = self.spec_vertices()[self.spec_indices()[k2]];
                v_new == v_old || call_ensures(*near, (v_new, v_old), true)
            } by {
                assert(self.spec_indices()[k2] == nis[k2].value());
                assert(0 <= nis[k2].value() < nvs.len());
                assert({
                    let v_old = old(self).spec_vertices()[old(self).spec_indices()[k2]];
                    let v_new = nvs[nis[k2].value()];
                    v_new == v_old || call_ensures(*near, (v_new, v_old), true)
                });
            }
            assert(merged_from(nvs, old(self).spec_vertices(), old(self).spec_indices()));
            assert(self.spec_vertices() == nvs);
            assert forall|j: int| 0 <= j < self.spec_vertices().len() implies #[trigger] references(
                self.spec_indices(),
                j,
            ) by {
                assert(references_value(nis, j));
                let i = choose|i: int| 0 <= i < nis.len() && (#[trigger] nis[i]).value() == j;
                assert(self.spec_indices()[i] == nis[i].value());
            }
        }
    }

    /// Computes one flat normal per face and stores it at each of the
    /// face's three index slots. The mesh must hold duplicated vertices (one
    /// per index occurrence, in a triangle list), so that every vertex
    /// belongs to exactly one face.
    pub fn flat_normals(&mut self)
        requires
            old(self).wf(),
            old(self).spec_indices().len() == old(self).spec_vertices().len(),
            old(self).spec_indices().len() % 3 == 0,
            old(self).spec_topology() == Topology::TriangleList,
        ensures
            final(self).wf(),
            final(self).spec_normals() matches Some(ns) && ns.len() == old(
                self,
            ).spec_vertices().len() && (forall|j: int|
                0 <= j < ns.len() ==> #[trigger] ns[j] == face_flat_normal(
                    old(self).spec_vertices(),
                    old(self).spec_indices(),
                    j / 3,
                )),
            final(self).spec_vertices() == old(self).spec_vertices(),
            final(self).spec_indices() == old(self).spec_indices(),
            final(self).spec_uv() == old(self).spec_uv(),
            final(self).spec_topology() == old(self).spec_topology(),
    {
        let len: usize = self.indices.len();
        let n = len / 3;
        let mut out: Vec<glam::Vec3> = Vec::new();
        let mut k: usize = 0;
        while k < n
            invariant
                self.wf(),
                len as int == self.spec_indices().len(),
                self.spec_indices().len() % 3 == 0,
                n as int == self.spec_indices().len() / 3,
                k <= n,
                out@.len() == 3 * k as int,
                forall|j: int|
                    0 <= j < out@.len() ==> #[trigger] out@[j] == face_flat_normal(
                        self.spec_vertices(),
                        self.spec_indices(),
                        j / 3,
                    ),
            decreases n - k,
        {
            let va = self.vertices.vec(self.indices.at(3 * k).index());
            let vb = self.vertices.vec(self.indices.at(3 * k + 1).index());
            let vc = self.vertices.vec(self.indices.at(3 * k + 2).index());
            let normal = vec3_normalize(vec3_cross(vec3_sub(vb, va), vec3_sub(vc, va)));
            let ghost g0 = out@;
            out.push(normal);
            out.push(normal);
            out.push(normal);
            proof {
                assert forall|j: int| 0 <= j < out@.len() implies #[trigger] out@[j]
                    == face_flat_normal(self.spec_vertices(), self.spec_indices(), j / 3) by {
                    if j < g0.len() {
                        assert(out@[j] == g0[j]);
                    } else {
                        let o = j - 3 * k as int;
                        assert(j / 3 == k as int);
                        assert(out@[j] == normal);
                    }
                }
            }
            k = k + 1;
        }
        proof {
            assert(3 * (len as int / 3) == len as int);
            assert(out@.len() == self.spec_vertices().len());
        }
        self.normals = Some(out);
        proof {
            if old(self).wf() {
                Self::lemma_wf_preserved(*old(self), *self);
            }
        }
    }

    /// Builds a triangle fan over the given vertices: the first vertex is
    /// the centre, and every further pair of neighbouring vertices closes a
    /// triangle with it. Fewer than three vertices build the empty mesh.
    pub fn fan(vertices: Vec<glam::Vec3>, uv: Option<Vec<glam::Vec2>>) -> (r: Self)
        requires
            vertices@.len() <= T::max_value() + 1,
            match uv {
                Some(u) => u@.len() == vertices@.len(),
                None => true,
            },
        ensures
            r.wf(),
            vertices@.len() < 3 ==> r.spec_vertices().len() == 0 && r.spec_indices().len() == 0,
            vertices@.len() >= 3 ==> {
                &&& r.spec_vertices() == vertices@
                &&& r.spec_indices().len() == 3 * (vertices@.len() - 2)
                &&& (forall|i: int|
                    0 <= i < vertices@.len() - 2 ==> {
                        &&& #[trigger] r.spec_indices()[3 * i] == 0
                        &&& r.spec_indices()[3 * i + 1] == i + 1
                        &&& r.spec_indices()[3 * i + 2] == i + 2
                    })
                &&& r.spec_uv() == match uv {
                    Some(u) => Some(u@),
                    None => None::<Seq<glam::Vec2>>,
                }
            },
            r.spec_normals() is None,
            r.spec_topology() == Topology::TriangleList,
    {
        // the mesh is degenerate - drop it
        if vertices.len() < 3 {
            return PMesh::new();
        }

        let n = vertices.len();
        let mut indices: Vec<T> = Vec::new();
        let mut i: usize = 1;
        proof {
            T::max_value_fits();
        }
        while i < n - 1
            invariant
                3 <= n,
                n as int == vertices@.len(),
                n as int <= T::max_value() + 1,
                1 <= i <= n - 1,
                indices@.len() == 3 * (i as int - 1),
                forall|j: int|
                    0 <= j < indices@.len() ==> ((#[trigger] indices@[j]).value()) == (if j % 3
                        == 0 {
                        0int
                    } else {
                        j / 3 + j % 3
                    }),
                forall|j: int|
                    0 <= j < indices@.len() ==> ((#[trigger] indices@[j]).value()) < n as int,
            decreases n - i,
        {
            let ghost g0 = indices@;
            indices.push(T::new(0));
            indices.push(T::new(i));
            indices.push(T::new(i + 1));
            proof {
                assert forall|j: int| 0 <= j < indices@.len() implies ((#[trigger] indices@[
                j]).value()) == (if j % 3 == 0 {
                    0int
                } else {
                    j / 3 + j % 3
                }) by {
                    if j < g0.len() {
                        assert(indices@[j] == g0[j]);
                    } else {
                        let o = j - g0.len();
                        assert(j / 3 == i as int - 1 && j % 3 == o);
                        if o == 0 {
                            assert(indices@[j].value() == 0);
                        } else if o == 1 {
                            assert(indices@[j].value() == i as int);
                        } else {
                            assert(indices@[j].value() == i as int + 1);
                        }
                    }
                }
            }
            i = i + 1;
        }
        let r = PMesh::build_ex(vertices, indices, uv, None, Topology::TriangleList);
        proof {
            assert forall|j: int| 0 <= j < r.spec_vertices().len() - 2 implies {
                &&& #[trigger] r.spec_indices()[3 * j] == 0
                &&& r.spec_indices()[3 * j + 1] == j + 1
                &&& r.spec_indices()[3 * j + 2] == j + 2
            } by {
                assert(r.spec_indices()[3 * j] == indices@[3 * j].value());
                assert(r.spec_indices()[3 * j + 1] == indices@[3 * j + 1].value());
                assert(r.spec_indices()[3 * j + 2] == indices@[3 * j + 2].value());
                assert((3 * j) / 3 == j && (3 * j) % 3 == 0);
                assert((3 * j + 1) / 3 == j && (3 * j + 1) % 3 == 1);
                assert((3 * j + 2) / 3 == j && (3 * j + 2) % 3 == 2);
            }
        }
        r
    }
}

} // verus!

