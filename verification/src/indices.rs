//! The index buffer: a flat sequence of indices interpreted as a triangle
//! list (groups of three) or as a triangle strip (sliding windows of three).

use vstd::prelude::*;

use crate::index_type::IndexType;

verus! {

/// A list of indices of type `T`.
///
/// The view of an index buffer is the sequence of the mathematical values of
/// its indices; every value lies between `0` and `T::max_value()`.
pub struct PIndices<T: IndexType> {
    indices: Vec<T>,
}

impl<T: IndexType> View for PIndices<T> {
    type V = Seq<int>;

    open spec fn view(&self) -> Seq<int> {
        Seq::new(self.raw().len(), |i: int| self.raw()[i].value())
    }
}

impl<T: IndexType> PIndices<T> {
    /// The stored indices, as typed values.
    pub closed spec fn raw(&self) -> Seq<T> {
        self.indices@
    }

    /// Every value in the buffer lies between `0` and `T::max_value()`.
    pub proof fn values_in_range(&self)
        ensures
            forall|i: int| 0 <= i < self@.len() ==> 0 <= #[trigger] self@[i] <= T::max_value(),
    {
        assert forall|i: int| 0 <= i < self@.len() implies 0 <= #[trigger] self@[i] <= T::max_value() by {
            self.raw()[i].value_in_range();
        }
    }

    /// Creates a new `PIndices` with an empty list of indices.
    pub fn new() -> (r: Self)
        ensures
            r@ == Seq::<int>::empty(),
    {
        let r = PIndices { indices: Vec::new() };
        proof {
            assert(r@ =~= Seq::<int>::empty());
        }
        r
    }

    /// Returns the number of indices in the `PIndices`.
    pub fn len(&self) -> (r: usize)
        ensures
            r as int == self@.len(),
    {
        self.indices.len()
    }

    /// Returns the index at buffer position `k`.
    pub fn at(&self, k: usize) -> (r: T)
        requires
            (k as int) < self@.len(),
        ensures
            r == self.raw()[k as int],
            r.value() == self@[k as int],
    {
        self.indices[k]
    }

    /// Returns a copy of this `PIndices`.
    pub fn copied(&self) -> (r: PIndices<T>)
        ensures
            r.raw() == self.raw(),
            r@ == self@,
    {
        let n = self.indices.len();
        let mut indices: Vec<T> = Vec::new();
        let mut k: usize = 0;
        while k < n
            invariant
                n as int == self.raw().len(),
                k <= n,
                indices@ =~= self.raw().subrange(0, k as int),
            decreases n - k,
        {
            indices.push(self.indices[k]);
            k = k + 1;
        }
        proof {
            assert(indices@ =~= self.raw());
        }
        PIndices { indices }
    }

    /// Builds a new `PIndices` from the given vector of indices, consuming
    /// the vector.
    pub fn build(indices: Vec<T>) -> (r: PIndices<T>)
        ensures
            r.raw() == indices@,
            r@.len() == indices@.len(),
            forall|i: int| 0 <= i < indices@.len() ==> r@[i] == #[trigger] indices@[i].value(),
    {
        PIndices { indices }
    }

    /// Returns a reference to the vector of indices.
    pub fn get_indices(&self) -> (r: &Vec<T>)
        ensures
            r@ == self.raw(),
            r@.len() == self@.len(),
            forall|i: int| 0 <= i < r@.len() ==> #[trigger] r@[i].value() == self@[i],
    {
        &self.indices
    }

    /// Returns the indices converted to `usize`, in buffer order.
    pub fn iter_usize(&self) -> (r: Vec<usize>)
        ensures
            r@.len() == self@.len(),
            forall|i: int| 0 <= i < r@.len() ==> #[trigger] r@[i] as int == self@[i],
    {
        let n = self.indices.len();
        let mut r: Vec<usize> = Vec::new();
        let mut k: usize = 0;
        while k < n
            invariant
                n == self@.len(),
                k <= n,
                r@.len() == k as int,
                forall|i: int| 0 <= i < k as int ==> #[trigger] r@[i] as int == self@[i],
            decreases n - k,
        {
            r.push(self.indices[k].index());
            k = k + 1;
        }
        r
    }

    /// Pushes a triangle to the list of indices.
    pub fn push(&mut self, a: T, b: T, c: T)
        ensures
            final(self)@ =~= old(self)@ + seq![a.value(), b.value(), c.value()],
    {
        self.indices.push(a);
        self.indices.push(b);
        self.indices.push(c);
    }

    /// Overwrites the triangle at slot `i` with the given indices, in place,
    /// without resizing the buffer.
    pub fn overwrite(&mut self, i: usize, a: T, b: T, c: T)
        requires
            3 * i as int + 2 < old(self)@.len(),
        ensures
            final(self)@ =~= old(self)@.update(3 * i as int, a.value()).update(
                3 * i as int + 1,
                b.value(),
            ).update(3 * i as int + 2, c.value()),
    {
        let n: usize = self.indices.len();
        self.indices.set(3 * i, a);
        self.indices.set(3 * i + 1, b);
        self.indices.set(3 * i + 2, c);
    }

    /// Returns the triangle at slot `i`, its three indices cyclically rotated
    /// by `rotate`, so that a caller can address any edge as edge `0`.
    pub fn get_triangle(&self, i: usize, rotate: usize) -> (r: (T, T, T))
        requires
            3 * i as int + 2 < self@.len(),
        ensures
            r.0.value() == self@[3 * i as int + (rotate as int) % 3],
            r.1.value() == self@[3 * i as int + (rotate as int + 1) % 3],
            r.2.value() == self@[3 * i as int + (rotate as int + 2) % 3],
    {
        let n: usize = self.indices.len();
        let r0 = rotate % 3;
        (
            self.indices[3 * i + r0],
            self.indices[3 * i + (r0 + 1) % 3],
            self.indices[3 * i + (r0 + 2) % 3],
        )
    }

    /// Appends the indices of the other `PIndices` to this one.
    pub fn extend(&mut self, other: &PIndices<T>)
        ensures
            final(self)@ =~= old(self)@ + other@,
    {
        let n = other.indices.len();
        let mut k: usize = 0;
        while k < n
            invariant
                n == other@.len(),
                k <= n,
                self.raw() =~= old(self).raw() + other.raw().subrange(0, k as int),
            decreases n - k,
        {
            self.indices.push(other.indices[k]);
            k = k + 1;
        }
        proof {
            assert(self.raw() =~= old(self).raw() + other.raw());
            assert(self@ =~= old(self)@ + other@);
        }
    }

    /// Modifies the indices in place using the given function.
    pub fn map<F: Fn(T) -> T>(&mut self, f: F)
        requires
            forall|i: int|
                0 <= i < old(self).raw().len() ==> call_requires(f, (#[trigger] old(self).raw()[i],)),
        ensures
            final(self)@.len() == old(self)@.len(),
            forall|i: int|
                0 <= i < final(self).raw().len() ==> call_ensures(
                    f,
                    (old(self).raw()[i],),
                    #[trigger] final(self).raw()[i],
                ),
    {
        let n = self.indices.len();
        let mut k: usize = 0;
        while k < n
            invariant
                n == self.raw().len(),
                self.raw().len() == old(self).raw().len(),
                k <= n,
                forall|i: int|
                    0 <= i < old(self).raw().len() ==> call_requires(
                        f,
                        (#[trigger] old(self).raw()[i],),
                    ),
                forall|i: int|
                    k as int <= i < n as int ==> #[trigger] self.raw()[i] == old(self).raw()[i],
                forall|i: int|
                    0 <= i < k as int ==> call_ensures(
                        f,
                        (old(self).raw()[i],),
                        #[trigger] self.raw()[i],
                    ),
            decreases n - k,
        {
            let v = f(self.indices[k]);
            self.indices.set(k, v);
            k = k + 1;
        }
    }

    /// Returns a copy of the `PIndices` with the indices in reverse order.
    pub fn reversed(&self) -> (r: PIndices<T>)
        ensures
            r@ =~= self@.reverse(),
    {
        let n = self.indices.len();
        let mut indices: Vec<T> = Vec::new();
        let mut k: usize = 0;
        while k < n
            invariant
                n == self.raw().len(),
                k <= n,
                indices@.len() == k as int,
                forall|i: int|
                    0 <= i < k as int ==> #[trigger] indices@[i] == self.raw()[n as int - 1 - i],
            decreases n - k,
        {
            indices.push(self.indices[n - 1 - k]);
            k = k + 1;
        }
        let r = PIndices { indices };
        proof {
            assert(r@ =~= self@.reverse());
        }
        r
    }

    /// Appends a reversed copy of the indices to the end of the list, so that
    /// every triangle also appears with the opposite winding.
    pub fn add_backfaces(&mut self)
        ensures
            final(self)@ =~= old(self)@ + old(self)@.reverse(),
    {
        let rev = self.reversed();
        self.extend(&rev);
    }

    /// Resets the indices to the interval from `start` (inclusive) to `end`
    /// (exclusive).
    pub fn reset_to_interval(&mut self, start: T, end: T)
        ensures
            start.value() <= end.value() ==> final(self)@ =~= Seq::new(
                (end.value() - start.value()) as nat,
                |i: int| start.value() + i,
            ),
            start.value() > end.value() ==> final(self)@ =~= Seq::<int>::empty(),
    {
        let s = start.index();
        let e = end.index();
        let mut indices: Vec<T> = Vec::new();
        let mut j: usize = s;
        proof {
            end.value_in_range();
        }
        while j < e
            invariant
                s as int == start.value(),
                e as int == end.value(),
                e as int <= T::max_value(),
                s <= j,
                j <= e || j == s,
                indices@.len() == j as int - s as int,
                forall|i: int|
                    0 <= i < indices@.len() ==> #[trigger] indices@[i].value() == s as int + i,
            decreases e - j,
        {
            indices.push(T::new(j));
            j = j + 1;
        }
        self.indices = indices;
        proof {
            if start.value() <= end.value() {
                assert(self@ =~= Seq::new(
                    (end.value() - start.value()) as nat,
                    |i: int| start.value() + i,
                ));
            } else {
                assert(self@ =~= Seq::<int>::empty());
            }
        }
    }

    /// Converts the indices to the narrowest acceptable unsigned width:
    /// 16 bits where the index type's maximum fits in them, 32 bits
    /// otherwise. An index type wider than 32 bits is not accepted by any
    /// rendering host this serves.
    pub fn export(&self) -> (r: IndexExport)
        requires
            T::max_value() <= u32::MAX as int,
        ensures
            T::max_value() <= u16::MAX as int ==> (r matches IndexExport::U16(v)
                && v@.len() == self@.len() && (forall|i: int|
                0 <= i < v@.len() ==> (#[trigger] v@[i]) as int == self@[i])),
            T::max_value() > u16::MAX as int ==> (r matches IndexExport::U32(v)
                && v@.len() == self@.len() && (forall|i: int|
                0 <= i < v@.len() ==> (#[trigger] v@[i]) as int == self@[i])),
    {
        proof {
            self.values_in_range();
        }
        let n = self.indices.len();
        if T::max().index() <= u16::MAX as usize {
            let mut out: Vec<u16> = Vec::new();
            let mut k: usize = 0;
            while k < n
                invariant
                    n as int == self@.len(),
                    T::max_value() <= u16::MAX as int,
                    forall|i: int| 0 <= i < self@.len() ==> 0 <= #[trigger] self@[i] <= T::max_value(),
                    k <= n,
                    out@.len() == k as int,
                    forall|i: int|
                        0 <= i < k as int ==> (#[trigger] out@[i]) as int == self@[i],
                decreases n - k,
            {
                out.push(self.indices[k].index() as u16);
                k = k + 1;
            }
            IndexExport::U16(out)
        } else {
            let mut out: Vec<u32> = Vec::new();
            let mut k: usize = 0;
            while k < n
                invariant
                    n as int == self@.len(),
                    T::max_value() <= u32::MAX as int,
                    forall|i: int| 0 <= i < self@.len() ==> 0 <= #[trigger] self@[i] <= T::max_value(),
                    k <= n,
                    out@.len() == k as int,
                    forall|i: int|
                        0 <= i < k as int ==> (#[trigger] out@[i]) as int == self@[i],
                decreases n - k,
            {
                out.push(self.indices[k].index() as u32);
                k = k + 1;
            }
            IndexExport::U32(out)
        }
    }

    /// Converts the indices from a triangle list to a triangle strip.
    ///
    /// Each source triangle `(a, b, c)` becomes the five indices
    /// `[a, a, b, c, c]`: the doubled entries are degenerate bridges, so the
    /// strip draws the same triangles without sharing indices between
    /// neighbouring source triangles.
    pub fn triangle_list_to_triangle_strip(&self) -> (r: PIndices<T>)
        ensures
            r@ =~= list_as_strip(self@),
            r@.len() == 5 * (self@.len() / 3),
            forall|j: int| 0 <= j < r@.len() ==> #[trigger] r@[j] == self@[strip_source(j)],
            forall|k: int|
                0 <= k < self@.len() / 3 ==> {
                    &&& #[trigger] r@[5 * k] == self@[3 * k]
                    &&& r@[5 * k + 1] == self@[3 * k]
                    &&& r@[5 * k + 2] == self@[3 * k + 1]
                    &&& r@[5 * k + 3] == self@[3 * k + 2]
                    &&& r@[5 * k + 4] == self@[3 * k + 2]
                },
    {
        let len: usize = self.indices.len();
        let n = len / 3;
        let mut indices: Vec<T> = Vec::new();
        let mut k: usize = 0;
        while k < n
            invariant
                len as int == self.raw().len(),
                n as int == self.raw().len() / 3,
                3 * n as int <= len as int,
                k <= n,
                indices@.len() == 5 * k as int,
                forall|j: int|
                    0 <= j < indices@.len() ==> #[trigger] indices@[j].value() == self@[
                        strip_source(j)
                    ],
            decreases n - k,
        {
            let ghost g0 = indices@;
            let a = self.indices[3 * k];
            let b = self.indices[3 * k + 1];
            let c = self.indices[3 * k + 2];
            indices.push(a);
            indices.push(a);
            indices.push(b);
            indices.push(c);
            indices.push(c);
            proof {
                assert forall|j: int| 0 <= j < indices@.len() implies #[trigger] indices@[j].value()
                    == self@[strip_source(j)] by {
                    if j < g0.len() {
                        assert(indices@[j] == g0[j]);
                    } else {
                        let o = j - 5 * k as int;
                        assert(j / 5 == k as int && j % 5 == o);
                        if o == 0 || o == 1 {
                            assert(indices@[j] == a);
                        } else if o == 2 {
                            assert(indices@[j] == b);
                        } else {
                            assert(indices@[j] == c);
                        }
                    }
                }
            }
            k = k + 1;
        }
        let r = PIndices { indices };
        proof {
            assert forall|k: int| 0 <= k < self@.len() / 3 implies {
                &&& #[trigger] r@[5 * k] == self@[3 * k]
                &&& r@[5 * k + 1] == self@[3 * k]
                &&& r@[5 * k + 2] == self@[3 * k + 1]
                &&& r@[5 * k + 3] == self@[3 * k + 2]
                &&& r@[5 * k + 4] == self@[3 * k + 2]
            } by {
                assert(r@[5 * k] == self@[strip_source(5 * k)]);
                assert(r@[5 * k + 1] == self@[strip_source(5 * k + 1)]);
                assert(r@[5 * k + 2] == self@[strip_source(5 * k + 2)]);
                assert(r@[5 * k + 3] == self@[strip_source(5 * k + 3)]);
                assert(r@[5 * k + 4] == self@[strip_source(5 * k + 4)]);
                assert((5 * k) / 5 == k && (5 * k) % 5 == 0);
                assert((5 * k + 1) / 5 == k && (5 * k + 1) % 5 == 1);
                assert((5 * k + 2) / 5 == k && (5 * k + 2) % 5 == 2);
                assert((5 * k + 3) / 5 == k && (5 * k + 3) % 5 == 3);
                assert((5 * k + 4) / 5 == k && (5 * k + 4) % 5 == 4);
            }
        }
        r
    }

    /// Converts the indices from a triangle strip to a triangle list: every
    /// window of three consecutive indices becomes one triangle.
    pub fn triangle_strip_to_triangle_list(&self) -> (r: PIndices<T>)
        ensures
            r@ =~= strip_as_list(self@),
            r@.len() == if self@.len() >= 3 {
                3 * (self@.len() - 2)
            } else {
                0
            },
            forall|j: int| 0 <= j < r@.len() ==> #[trigger] r@[j] == self@[j / 3 + j % 3],
            forall|k: int|
                0 <= k < self@.len() - 2 ==> {
                    &&& #[trigger] r@[3 * k] == self@[k]
                    &&& r@[3 * k + 1] == self@[k + 1]
                    &&& r@[3 * k + 2] == self@[k + 2]
                },
    {
        let len: usize = self.indices.len();
        let mut indices: Vec<T> = Vec::new();
        if len >= 3 {
            let n = len - 2;
            let mut k: usize = 0;
            while k < n
                invariant
                    len as int == self.raw().len(),
                    n as int == self.raw().len() - 2,
                    k <= n,
                    indices@.len() == 3 * k as int,
                    forall|j: int|
                        0 <= j < indices@.len() ==> #[trigger] indices@[j].value() == self@[
                            j / 3 + j % 3
                        ],
                decreases n - k,
            {
                let ghost g0 = indices@;
                indices.push(self.indices[k]);
                indices.push(self.indices[k + 1]);
                indices.push(self.indices[k + 2]);
                proof {
                    assert forall|j: int| 0 <= j < indices@.len() implies #[trigger] indices@[
                        j
                    ].value() == self@[j / 3 + j % 3] by {
                        if j < g0.len() {
                            assert(indices@[j] == g0[j]);
                        } else {
                            let o = j - 3 * k as int;
                            assert(j / 3 == k as int && j % 3 == o);
                        }
                    }
                }
                k = k + 1;
            }
        }
        let r = PIndices { indices };
        proof {
            assert forall|k: int| 0 <= k < self@.len() - 2 implies {
                &&& #[trigger] r@[3 * k] == self@[k]
                &&& r@[3 * k + 1] == self@[k + 1]
                &&& r@[3 * k + 2] == self@[k + 2]
            } by {
                assert(r@[3 * k] == self@[(3 * k) / 3 + (3 * k) % 3]);
                assert(r@[3 * k + 1] == self@[(3 * k + 1) / 3 + (3 * k + 1) % 3]);
                assert(r@[3 * k + 2] == self@[(3 * k + 2) / 3 + (3 * k + 2) % 3]);
                assert((3 * k) / 3 == k && (3 * k) % 3 == 0);
                assert((3 * k + 1) / 3 == k && (3 * k + 1) % 3 == 1);
                assert((3 * k + 2) / 3 == k && (3 * k + 2) % 3 == 2);
            }
        }
        r
    }
}

/// The position in a triangle list that supplies the index at position `j`
/// of the corresponding degenerate-bridge triangle strip: triangle `j / 5`
/// contributes its corners in the order `[a, a, b, c, c]`.
/// An index buffer converted to the narrowest acceptable plain unsigned
/// width, ready to hand to a rendering host.
pub enum IndexExport {
    U16(Vec<u16>),
    U32(Vec<u32>),
}

/// The index sequence of the degenerate-bridge triangle strip that draws the
/// same triangles as the given triangle-list index sequence.
pub open spec fn list_as_strip(s: Seq<int>) -> Seq<int> {
    Seq::new((5 * (s.len() / 3)) as nat, |j: int| s[strip_source(j)])
}

/// The index sequence of the triangle list that takes every window of three
/// consecutive indices of the given triangle-strip index sequence.
pub open spec fn strip_as_list(s: Seq<int>) -> Seq<int> {
    Seq::new(
        if s.len() >= 3 {
            (3 * (s.len() - 2)) as nat
        } else {
            0nat
        },
        |j: int| s[j / 3 + j % 3],
    )
}

/// The index sequence converted from one topology to the other; converting
/// a sequence to the topology it already has leaves it unchanged.
pub open spec fn converted_indices(
    src: Seq<int>,
    from: crate::mesh::Topology,
    to: crate::mesh::Topology,
) -> Seq<int> {
    if from == to {
        src
    } else if from == crate::mesh::Topology::TriangleList {
        list_as_strip(src)
    } else {
        strip_as_list(src)
    }
}

/// The same index sequence with every value moved up by `d`: how appended
/// indices are re-based past the vertices already present.
pub open spec fn shifted_by(s: Seq<int>, d: int) -> Seq<int> {
    Seq::new(s.len(), |i: int| s[i] + d)
}

pub open spec fn strip_source(j: int) -> int {
    3 * (j / 5) + if j % 5 <= 1 {
        0int
    } else if j % 5 == 2 {
        1int
    } else {
        2int
    }
}

} // verus!
