//! The vertex buffer: a dense ordered sequence of 3D positions. Insertion
//! order is vertex identity; an index buffer refers to positions by their
//! place in this sequence.

use vstd::prelude::*;

use crate::index_type::IndexType;
use crate::math::{vec3_add, vec3_mul, vec3_product_of, vec3_sum_of, vec3_swap_yz, vec3_swapped_yz_of};
use crate::mesh::{PMesh, Topology};

verus! {

/// A list of vertex positions.
pub struct PVertices {
    vertices: Vec<glam::Vec3>,
}

impl View for PVertices {
    type V = Seq<glam::Vec3>;

    closed spec fn view(&self) -> Seq<glam::Vec3> {
        self.vertices@
    }
}

impl PVertices {
    /// Creates a new `PVertices` with an empty list of vertices.
    pub fn new() -> (r: Self)
        ensures
            r@ == Seq::<glam::Vec3>::empty(),
    {
        let r = PVertices { vertices: Vec::new() };
        proof {
            assert(r@ =~= Seq::<glam::Vec3>::empty());
        }
        r
    }

    /// Builds a new `PVertices` from the given vector of positions,
    /// consuming the vector.
    pub fn build(vertices: Vec<glam::Vec3>) -> (r: PVertices)
        ensures
            r@ == vertices@,
    {
        PVertices { vertices }
    }

    /// Returns a reference to the vector of positions.
    pub fn get_vertices(&self) -> (r: &Vec<glam::Vec3>)
        ensures
            r@ == self@,
    {
        &self.vertices
    }

    /// Returns the number of vertices.
    pub fn len(&self) -> (r: usize)
        ensures
            r as int == self@.len(),
    {
        self.vertices.len()
    }

    /// Returns the vertex at the given index.
    pub fn vec(&self, i: usize) -> (r: glam::Vec3)
        requires
            (i as int) < self@.len(),
        ensures
            r == self@[i as int],
    {
        self.vertices[i]
    }

    /// Appends one position.
    pub fn push(&mut self, v: glam::Vec3)
        ensures
            final(self)@ =~= old(self)@.push(v),
    {
        self.vertices.push(v);
    }

    /// Appends the vertices of the other `PVertices` to this one.
    pub fn extend(&mut self, other: &PVertices)
        ensures
            final(self)@ =~= old(self)@ + other@,
    {
        let n = other.vertices.len();
        let mut k: usize = 0;
        while k < n
            invariant
                n as int == other@.len(),
                k <= n,
                self@ =~= old(self)@ + other@.subrange(0, k as int),
            decreases n - k,
        {
            self.vertices.push(other.vertices[k]);
            k = k + 1;
        }
        proof {
            assert(self@ =~= old(self)@ + other@);
        }
    }

    /// Replaces all positions with the given ones; the count may not change,
    /// so every index buffer over this vertex buffer stays valid.
    pub fn replace_positions(&mut self, vertices: Vec<glam::Vec3>)
        requires
            vertices@.len() == old(self)@.len(),
        ensures
            final(self)@ == vertices@,
    {
        self.vertices = vertices;
    }

    /// Translates every vertex by the given vector, in place.
    pub fn translate(&mut self, d: glam::Vec3)
        ensures
            final(self)@.len() == old(self)@.len(),
            forall|i: int|
                0 <= i < old(self)@.len() ==> final(self)@[i] == vec3_sum_of(
                    #[trigger] old(self)@[i],
                    d,
                ),
    {
        let n = self.vertices.len();
        let mut k: usize = 0;
        while k < n
            invariant
                n as int == self@.len(),
                self@.len() == old(self)@.len(),
                k <= n,
                forall|i: int| k as int <= i < n as int ==> self@[i] == #[trigger] old(self)@[i],
                forall|i: int|
                    0 <= i < k as int ==> self@[i] == vec3_sum_of(#[trigger] old(self)@[i], d),
            decreases n - k,
        {
            let v = vec3_add(self.vertices[k], d);
            self.vertices.set(k, v);
            k = k + 1;
        }
    }

    /// Scales every vertex componentwise by the given vector, in place.
    pub fn scale(&mut self, s: glam::Vec3)
        ensures
            final(self)@.len() == old(self)@.len(),
            forall|i: int|
                0 <= i < old(self)@.len() ==> final(self)@[i] == vec3_product_of(
                    #[trigger] old(self)@[i],
                    s,
                ),
    {
        let n = self.vertices.len();
        let mut k: usize = 0;
        while k < n
            invariant
                n as int == self@.len(),
                self@.len() == old(self)@.len(),
                k <= n,
                forall|i: int| k as int <= i < n as int ==> self@[i] == #[trigger] old(self)@[i],
                forall|i: int|
                    0 <= i < k as int ==> self@[i] == vec3_product_of(#[trigger] old(self)@[i], s),
            decreases n - k,
        {
            let v = vec3_mul(self.vertices[k], s);
            self.vertices.set(k, v);
            k = k + 1;
        }
    }

    /// Extrudes the vertices along the given direction, treating them as an
    /// open polyline: for `n` input points the new mesh holds `2 * n`
    /// vertices (each point followed by its translated copy) and `6 * n`
    /// indices forming `n` quads of two triangles each, the indices taken
    /// modulo `2 * n` so the last quad wraps around to the first pair.
    pub fn extrude<T: IndexType>(&self, direction: glam::Vec3) -> (r: PMesh<T>)
        requires
            2 * self@.len() <= T::max_value() + 1,
            self@.len() <= (usize::MAX as int) / 2,
        ensures
            r.wf(),
            r.spec_vertices().len() == 2 * self@.len(),
            forall|k: int|
                0 <= k < self@.len() ==> r.spec_vertices()[2 * k] == #[trigger] self@[k],
            forall|k: int|
                0 <= k < self@.len() ==> r.spec_vertices()[2 * k + 1] == vec3_sum_of(
                    #[trigger] self@[k],
                    direction,
                ),
            r.spec_indices().len() == 6 * self@.len(),
            forall|k: int|
                0 <= k < self@.len() ==> {
                    let m = 2 * self@.len() as int;
                    &&& #[trigger] r.spec_indices()[6 * k] == (2 * k) % m
                    &&& r.spec_indices()[6 * k + 1] == (2 * k + 1) % m
                    &&& r.spec_indices()[6 * k + 2] == (2 * k + 3) % m
                    &&& r.spec_indices()[6 * k + 3] == (2 * k) % m
                    &&& r.spec_indices()[6 * k + 4] == (2 * k + 3) % m
                    &&& r.spec_indices()[6 * k + 5] == (2 * k + 2) % m
                },
            r.spec_uv() is None,
            r.spec_normals() is None,
            r.spec_topology() == Topology::TriangleList,
    {
        let n = self.vertices.len();
        let mut vertices: Vec<glam::Vec3> = Vec::new();
        let mut k: usize = 0;
        while k < n
            invariant
                n as int == self@.len(),
                k <= n,
                vertices@.len() == 2 * k as int,
                forall|i: int| 0 <= i < k as int ==> vertices@[2 * i] == #[trigger] self@[i],
                forall|i: int|
                    0 <= i < k as int ==> vertices@[2 * i + 1] == vec3_sum_of(
                        #[trigger] self@[i],
                        direction,
                    ),
            decreases n - k,
        {
            let v = self.vertices[k];
            vertices.push(v);
            vertices.push(vec3_add(v, direction));
            proof {
                assert(vertices@[2 * k as int] == self@[k as int]);
                assert(vertices@[2 * k as int + 1] == vec3_sum_of(self@[k as int], direction));
            }
            k = k + 1;
        }

        let m = 2 * n;
        let mut indices: Vec<T> = Vec::new();
        let mut i: usize = 0;
        proof {
            T::max_value_fits();
        }
        while i < n
            invariant
                n as int == self@.len(),
                m == 2 * n,
                2 * n as int <= T::max_value() + 1,
                i <= n,
                indices@.len() == 6 * i as int,
                forall|j: int|
                    0 <= j < indices@.len() ==> ((#[trigger] indices@[j]).value()) < 2 * n as int,
                forall|k2: int|
                    0 <= k2 < i as int ==> {
                        &&& (#[trigger] indices@[6 * k2]).value() == (2 * k2) % (m as int)
                        &&& indices@[6 * k2 + 1].value() == (2 * k2 + 1) % (m as int)
                        &&& indices@[6 * k2 + 2].value() == (2 * k2 + 3) % (m as int)
                        &&& indices@[6 * k2 + 3].value() == (2 * k2) % (m as int)
                        &&& indices@[6 * k2 + 4].value() == (2 * k2 + 3) % (m as int)
                        &&& indices@[6 * k2 + 5].value() == (2 * k2 + 2) % (m as int)
                    },
            decreases n - i,
        {
            let b = 2 * i;
            indices.push(T::new(b % m));
            indices.push(T::new((b + 1) % m));
            indices.push(T::new((b + 3) % m));
            indices.push(T::new(b % m));
            indices.push(T::new((b + 3) % m));
            indices.push(T::new((b + 2) % m));
            proof {
                assert(indices@[6 * i as int].value() == (2 * i as int) % (m as int));
                assert(indices@[6 * i as int + 1].value() == (2 * i as int + 1) % (m as int));
                assert(indices@[6 * i as int + 2].value() == (2 * i as int + 3) % (m as int));
                assert(indices@[6 * i as int + 3].value() == (2 * i as int) % (m as int));
                assert(indices@[6 * i as int + 4].value() == (2 * i as int + 3) % (m as int));
                assert(indices@[6 * i as int + 5].value() == (2 * i as int + 2) % (m as int));
            }
            i = i + 1;
        }

        let r = PMesh::<T>::build_ex(vertices, indices, None, None, Topology::TriangleList);
        proof {
            assert forall|k2: int| 0 <= k2 < self@.len() implies {
                let mm = 2 * self@.len() as int;
                &&& #[trigger] r.spec_indices()[6 * k2] == (2 * k2) % mm
                &&& r.spec_indices()[6 * k2 + 1] == (2 * k2 + 1) % mm
                &&& r.spec_indices()[6 * k2 + 2] == (2 * k2 + 3) % mm
                &&& r.spec_indices()[6 * k2 + 3] == (2 * k2) % mm
                &&& r.spec_indices()[6 * k2 + 4] == (2 * k2 + 3) % mm
                &&& r.spec_indices()[6 * k2 + 5] == (2 * k2 + 2) % mm
            } by {
                assert(r.spec_indices()[6 * k2] == indices@[6 * k2].value());
                assert(r.spec_indices()[6 * k2 + 1] == indices@[6 * k2 + 1].value());
                assert(r.spec_indices()[6 * k2 + 2] == indices@[6 * k2 + 2].value());
                assert(r.spec_indices()[6 * k2 + 3] == indices@[6 * k2 + 3].value());
                assert(r.spec_indices()[6 * k2 + 4] == indices@[6 * k2 + 4].value());
                assert(r.spec_indices()[6 * k2 + 5] == indices@[6 * k2 + 5].value());
            }
        }
        r
    }

    /// Exchanges the second and third coordinate of every vertex, in place:
    /// an axis-convention adapter for downstream consumers. Applying the
    /// exchange to the new positions restores the old ones, so two calls in
    /// a row leave the buffer as it was.
    pub fn flip_yz(&mut self)
        ensures
            final(self)@.len() == old(self)@.len(),
            forall|i: int|
                0 <= i < old(self)@.len() ==> final(self)@[i] == vec3_swapped_yz_of(
                    #[trigger] old(self)@[i],
                ),
            forall|i: int|
                0 <= i < old(self)@.len() ==> vec3_swapped_yz_of(#[trigger] final(self)@[i])
                    == old(self)@[i],
    {
        let n = self.vertices.len();
        let mut k: usize = 0;
        while k < n
            invariant
                n as int == self@.len(),
                self@.len() == old(self)@.len(),
                k <= n,
                forall|i: int| k as int <= i < n as int ==> self@[i] == #[trigger] old(self)@[i],
                forall|i: int|
                    0 <= i < k as int ==> self@[i] == vec3_swapped_yz_of(#[trigger] old(self)@[i]),
                forall|i: int|
                    0 <= i < k as int ==> vec3_swapped_yz_of(#[trigger] self@[i]) == old(self)@[i],
            decreases n - k,
        {
            let v = vec3_swap_yz(self.vertices[k]);
            self.vertices.set(k, v);
            k = k + 1;
        }
    }
}

} // verus!
