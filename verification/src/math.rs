//! Opaque 3D/2D vector types from `glam`, together with the few vector
//! operations the verified code relies on.
//!
//! Positions are single-precision vectors. Verus cannot reason about their
//! numeric content, so the types stay opaque: the verified code moves them
//! between buffers unchanged, and each arithmetic result is named by an
//! uninterpreted function of its arguments (componentwise floating-point
//! arithmetic depends on the arguments alone).

use vstd::prelude::*;

use glam::Vec3Swizzles;

verus! {

#[verifier::external_type_specification]
#[verifier::external_body]
pub struct ExVec3(glam::Vec3);

#[verifier::external_type_specification]
#[verifier::external_body]
pub struct ExVec2(glam::Vec2);

/// The componentwise sum of two vectors.
pub uninterp spec fn vec3_sum_of(a: glam::Vec3, b: glam::Vec3) -> glam::Vec3;

/// The componentwise product of two vectors.
pub uninterp spec fn vec3_product_of(a: glam::Vec3, b: glam::Vec3) -> glam::Vec3;

/// The vector with its second and third components exchanged.
pub uninterp spec fn vec3_swapped_yz_of(v: glam::Vec3) -> glam::Vec3;

/// The componentwise difference of two vectors.
pub uninterp spec fn vec3_difference_of(a: glam::Vec3, b: glam::Vec3) -> glam::Vec3;

/// The cross product of two vectors.
pub uninterp spec fn vec3_cross_of(a: glam::Vec3, b: glam::Vec3) -> glam::Vec3;

/// The vector scaled to unit length; of a zero or non-finite vector,
/// whatever non-finite vector the division yields.
pub uninterp spec fn vec3_normalized_of(v: glam::Vec3) -> glam::Vec3;

/// Relies on `glam`'s `Add` impl for `Vec3`: the componentwise sum of the
/// two vectors, a function of the arguments alone.
#[verifier::external_body]
pub(crate) fn vec3_add(a: glam::Vec3, b: glam::Vec3) -> (r: glam::Vec3)
    ensures
        r == vec3_sum_of(a, b),
{
    a + b
}

/// Relies on `glam`'s `Mul` impl for `Vec3`: the componentwise product of
/// the two vectors, a function of the arguments alone.
#[verifier::external_body]
pub(crate) fn vec3_mul(a: glam::Vec3, b: glam::Vec3) -> (r: glam::Vec3)
    ensures
        r == vec3_product_of(a, b),
{
    a * b
}

/// Relies on `glam`'s `Sub` impl for `Vec3`: the componentwise difference
/// of the two vectors, a function of the arguments alone.
#[verifier::external_body]
pub(crate) fn vec3_sub(a: glam::Vec3, b: glam::Vec3) -> (r: glam::Vec3)
    ensures
        r == vec3_difference_of(a, b),
{
    a - b
}

/// Relies on `glam`'s `Vec3::cross`: the cross product of the two vectors,
/// a function of the arguments alone.
#[verifier::external_body]
pub(crate) fn vec3_cross(a: glam::Vec3, b: glam::Vec3) -> (r: glam::Vec3)
    ensures
        r == vec3_cross_of(a, b),
{
    a.cross(b)
}

/// Relies on `glam`'s `Vec3::normalize`: the vector divided by its length,
/// a function of the argument alone. The library is built without `glam`'s
/// assertion feature, so a zero or non-finite input yields a non-finite
/// vector rather than a panic.
#[verifier::external_body]
pub(crate) fn vec3_normalize(v: glam::Vec3) -> (r: glam::Vec3)
    ensures
        r == vec3_normalized_of(v),
{
    v.normalize()
}

/// Relies on `glam`'s `Vec3Swizzles::xzy`: the same vector with its second
/// and third components exchanged. Exchanging them again restores the
/// vector, component for component, so the swap of the result is the
/// argument.
#[verifier::external_body]
pub(crate) fn vec3_swap_yz(v: glam::Vec3) -> (r: glam::Vec3)
    ensures
        r == vec3_swapped_yz_of(v),
        vec3_swapped_yz_of(r) == v,
{
    v.xzy()
}

} // verus!
