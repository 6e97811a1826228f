//! Pluggable unsigned integer width for index buffers.
//!
//! The same mesh logic works for memory-compact 8/16-bit indices (small
//! shapes) and 32/64-bit indices (large shapes) without duplicating the
//! algorithms. Every mutation site that allocates a new index runs through
//! the width-checked construction of this trait.

use vstd::prelude::*;

verus! {

/// An unsigned integer type used for the indices of an index buffer.
///
/// Each implementation fixes a maximum representable value; constructing an
/// index above that maximum is ruled out by the preconditions, and
/// `try_new` offers the runtime-checked variant.
pub trait IndexType: Copy + core::fmt::Debug {
    /// The largest value this index width can represent.
    spec fn max_value() -> int;

    /// The mathematical value of this index.
    spec fn value(self) -> int;

    /// The maximum fits in a `usize`, so every index converts to `usize`.
    proof fn max_value_fits()
        ensures
            0 <= Self::max_value() <= usize::MAX as int,
    ;

    /// Every value of the type lies between zero and the maximum.
    proof fn value_in_range(self)
        ensures
            0 <= self.value() <= Self::max_value(),
    ;

    /// Creates a new index from a `usize` that fits the width.
    fn new(x: usize) -> (r: Self)
        requires
            x as int <= Self::max_value(),
        ensures
            r.value() == x as int,
    ;

    /// Creates a new index from a `usize`, reporting `None` exactly when
    /// the value exceeds the width's maximum.
    fn try_new(x: usize) -> (r: Option<Self>)
        ensures
            r is Some <==> x as int <= Self::max_value(),
            r is Some ==> r->0.value() == x as int,
    ;

    /// Converts the index to a `usize`.
    fn index(&self) -> (r: usize)
        ensures
            r as int == self.value(),
    ;

    /// Returns the maximum value of the index type.
    fn max() -> (r: Self)
        ensures
            r.value() == Self::max_value(),
    ;

    /// Adds two indices; the checked precondition rules out overflow.
    fn add(self, x: Self) -> (r: Self)
        requires
            self.value() + x.value() <= Self::max_value(),
        ensures
            r.value() == self.value() + x.value(),
    ;
}

impl IndexType for u8 {
    open spec fn max_value() -> int {
        u8::MAX as int
    }

    open spec fn value(self) -> int {
        self as int
    }

    proof fn max_value_fits() {
    }

    proof fn value_in_range(self) {
    }

    fn new(x: usize) -> (r: Self) {
        x as u8
    }

    fn try_new(x: usize) -> (r: Option<Self>) {
        if x <= u8::MAX as usize {
            Some(x as u8)
        } else {
            None
        }
    }

    fn index(&self) -> (r: usize) {
        *self as usize
    }

    fn max() -> (r: Self) {
        u8::MAX
    }

    fn add(self, x: Self) -> (r: Self) {
        self + x
    }
}

impl IndexType for u16 {
    open spec fn max_value() -> int {
        u16::MAX as int
    }

    open spec fn value(self) -> int {
        self as int
    }

    proof fn max_value_fits() {
    }

    proof fn value_in_range(self) {
    }

    fn new(x: usize) -> (r: Self) {
        x as u16
    }

    fn try_new(x: usize) -> (r: Option<Self>) {
        if x <= u16::MAX as usize {
            Some(x as u16)
        } else {
            None
        }
    }

    fn index(&self) -> (r: usize) {
        *self as usize
    }

    fn max() -> (r: Self) {
        u16::MAX
    }

    fn add(self, x: Self) -> (r: Self) {
        self + x
    }
}

impl IndexType for u32 {
    open spec fn max_value() -> int {
        u32::MAX as int
    }

    open spec fn value(self) -> int {
        self as int
    }

    proof fn max_value_fits() {
    }

    proof fn value_in_range(self) {
    }

    fn new(x: usize) -> (r: Self) {
        x as u32
    }

    fn try_new(x: usize) -> (r: Option<Self>) {
        if x <= u32::MAX as usize {
            Some(x as u32)
        } else {
            None
        }
    }

    fn index(&self) -> (r: usize) {
        *self as usize
    }

    fn max() -> (r: Self) {
        u32::MAX
    }

    fn add(self, x: Self) -> (r: Self) {
        self + x
    }
}

impl IndexType for usize {
    open spec fn max_value() -> int {
        usize::MAX as int
    }

    open spec fn value(self) -> int {
        self as int
    }

    proof fn max_value_fits() {
    }

    proof fn value_in_range(self) {
    }

    fn new(x: usize) -> (r: Self) {
        x
    }

    fn try_new(x: usize) -> (r: Option<Self>) {
        Some(x)
    }

    fn index(&self) -> (r: usize) {
        *self
    }

    fn max() -> (r: Self) {
        usize::MAX
    }

    fn add(self, x: Self) -> (r: Self) {
        self + x
    }
}

} // verus!
