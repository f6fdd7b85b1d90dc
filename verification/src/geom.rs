//! Linear-algebra values from the `ultraviolet` crate, declared for the
//! verifier and reached only through a small set of trusted wrappers.
//!
//! The library never looks inside a vector or a matrix: every value of these
//! types is opaque, produced and consumed by `ultraviolet` itself.  What a
//! wrapper returns is pinned by an uninterpreted name where the result is a
//! function of the arguments alone, so that callers' contracts can speak of
//! the composition of these operations exactly.
use vstd::prelude::*;

verus! {

#[verifier::external_type_specification]
#[verifier::external_body]
pub struct ExVec2(ultraviolet::Vec2);

#[verifier::external_type_specification]
#[verifier::external_body]
pub struct ExVec3(ultraviolet::Vec3);

#[verifier::external_type_specification]
#[verifier::external_body]
pub struct ExVec4(ultraviolet::Vec4);

#[verifier::external_type_specification]
#[verifier::external_body]
pub struct ExMat3(ultraviolet::Mat3);

#[verifier::external_type_specification]
#[verifier::external_body]
pub struct ExMat4(ultraviolet::Mat4);

/// The upper-left three-by-three block of a four-by-four matrix, as
/// `ultraviolet::Mat4::truncate` computes it.
pub uninterp spec fn mat4_upper_left(m: ultraviolet::Mat4) -> ultraviolet::Mat3;

/// The inverse of a three-by-three matrix, as `ultraviolet::Mat3::inversed`
/// computes it.
pub uninterp spec fn mat3_inverse(m: ultraviolet::Mat3) -> ultraviolet::Mat3;

/// The transpose of a three-by-three matrix, as
/// `ultraviolet::Mat3::transposed` computes it.
pub uninterp spec fn mat3_transpose(m: ultraviolet::Mat3) -> ultraviolet::Mat3;

/// Holds of the value that `ultraviolet::Mat4::identity` returns.
pub uninterp spec fn mat4_is_identity(m: ultraviolet::Mat4) -> bool;

/// Holds of the value that `ultraviolet::Mat3::identity` returns.
pub uninterp spec fn mat3_is_identity(m: ultraviolet::Mat3) -> bool;

/// Holds of the value that `ultraviolet::Vec3::zero` returns.
pub uninterp spec fn vec3_is_zero(v: ultraviolet::Vec3) -> bool;

/// Holds of the value that `ultraviolet::Vec4::zero` returns.
pub uninterp spec fn vec4_is_zero(v: ultraviolet::Vec4) -> bool;

/// The vector with every component clamped into the unit interval, as
/// `ultraviolet::Vec4::clamped` computes it against the zero and one vectors.
pub uninterp spec fn vec4_unit_clamped(v: ultraviolet::Vec4) -> ultraviolet::Vec4;

/// The homogeneous point with unit last coordinate, as
/// `ultraviolet::Vec3::into_homogeneous_point` computes it.
pub uninterp spec fn vec3_homogeneous_point(v: ultraviolet::Vec3) -> ultraviolet::Vec4;

/// The sixteen bytes of a four-component vector, each component taken to its
/// bit pattern and laid out in little-endian order, component by component.
pub uninterp spec fn vec4_le_bytes(v: ultraviolet::Vec4) -> Seq<u8>;

/// The component-wise minimum of two vectors, as
/// `ultraviolet::Vec3::min_by_component` computes it.
pub uninterp spec fn vec3_min(a: ultraviolet::Vec3, b: ultraviolet::Vec3) -> ultraviolet::Vec3;

/// The component-wise maximum of two vectors, as
/// `ultraviolet::Vec3::max_by_component` computes it.
pub uninterp spec fn vec3_max(a: ultraviolet::Vec3, b: ultraviolet::Vec3) -> ultraviolet::Vec3;

/// The vector taking its first component from the first argument, its second
/// from the second, and its third from the third.
pub uninterp spec fn vec3_select(
    xs: ultraviolet::Vec3,
    ys: ultraviolet::Vec3,
    zs: ultraviolet::Vec3,
) -> ultraviolet::Vec3;

/// Relies on `ultraviolet::Mat4::identity`.
#[verifier::external_body]
pub fn mat4_identity() -> (r: ultraviolet::Mat4)
    ensures
        mat4_is_identity(r),
{
    ultraviolet::Mat4::identity()
}

/// Relies on `ultraviolet::Mat3::identity`.
#[verifier::external_body]
pub fn mat3_identity() -> (r: ultraviolet::Mat3)
    ensures
        mat3_is_identity(r),
{
    ultraviolet::Mat3::identity()
}

/// Relies on `ultraviolet::Vec3::zero`.
#[verifier::external_body]
pub fn vec3_zero() -> (r: ultraviolet::Vec3)
    ensures
        vec3_is_zero(r),
{
    ultraviolet::Vec3::zero()
}

/// Relies on `ultraviolet::Vec4::zero`.
#[verifier::external_body]
pub fn vec4_zero() -> (r: ultraviolet::Vec4)
    ensures
        vec4_is_zero(r),
{
    ultraviolet::Vec4::zero()
}

/// Relies on `ultraviolet::Mat4::truncate`: the upper-left three-by-three
/// block of the matrix.
#[verifier::external_body]
pub fn mat4_upper_left_block(m: &ultraviolet::Mat4) -> (r: ultraviolet::Mat3)
    ensures
        r == mat4_upper_left(*m),
{
    m.truncate()
}

/// Relies on `ultraviolet::Mat3::inversed`.
#[verifier::external_body]
pub fn mat3_inversed(m: &ultraviolet::Mat3) -> (r: ultraviolet::Mat3)
    ensures
        r == mat3_inverse(*m),
{
    m.inversed()
}

/// Relies on `ultraviolet::Mat3::transposed`.
#[verifier::external_body]
pub fn mat3_transposed(m: &ultraviolet::Mat3) -> (r: ultraviolet::Mat3)
    ensures
        r == mat3_transpose(*m),
{
    m.transposed()
}

/// Relies on `ultraviolet::Vec4::clamped`, with `Vec4::zero` and `Vec4::one`
/// as the bounds: every component is clamped into the unit interval.
#[verifier::external_body]
pub fn vec4_clamp_unit(v: &ultraviolet::Vec4) -> (r: ultraviolet::Vec4)
    ensures
        r == vec4_unit_clamped(*v),
{
    v.clamped(ultraviolet::Vec4::zero(), ultraviolet::Vec4::one())
}

/// Relies on `ultraviolet::Vec3::into_homogeneous_point`: the same three
/// components with a unit last coordinate appended.
#[verifier::external_body]
pub fn vec3_to_homogeneous_point(v: &ultraviolet::Vec3) -> (r: ultraviolet::Vec4)
    ensures
        r == vec3_homogeneous_point(*v),
{
    v.into_homogeneous_point()
}

/// Relies on `ultraviolet::Vec3::min_by_component`.
#[verifier::external_body]
pub fn vec3_min_by_component(a: &ultraviolet::Vec3, b: &ultraviolet::Vec3) -> (r:
    ultraviolet::Vec3)
    ensures
        r == vec3_min(*a, *b),
{
    a.min_by_component(*b)
}

/// Relies on `ultraviolet::Vec3::max_by_component`.
#[verifier::external_body]
pub fn vec3_max_by_component(a: &ultraviolet::Vec3, b: &ultraviolet::Vec3) -> (r:
    ultraviolet::Vec3)
    ensures
        r == vec3_max(*a, *b),
{
    a.max_by_component(*b)
}

/// Relies on `ultraviolet::Vec3::new`, fed one component from each argument.
#[verifier::external_body]
pub fn vec3_from_components(
    xs: &ultraviolet::Vec3,
    ys: &ultraviolet::Vec3,
    zs: &ultraviolet::Vec3,
) -> (r: ultraviolet::Vec3)
    ensures
        r == vec3_select(*xs, *ys, *zs),
{
    ultraviolet::Vec3::new(xs.x, ys.y, zs.z)
}

/// Relies on the standard library's conversion of a number to its bit pattern
/// and of that pattern to its little-endian bytes: four bytes for each of the
/// four components, sixteen in all.
#[verifier::external_body]
pub fn vec4_to_le_bytes(v: &ultraviolet::Vec4) -> (r: Vec<u8>)
    ensures
        r@ == vec4_le_bytes(*v),
        r@.len() == 16,
{
    let mut out = Vec::with_capacity(16);
    out.extend_from_slice(&v.x.to_bits().to_le_bytes());
    out.extend_from_slice(&v.y.to_bits().to_le_bytes());
    out.extend_from_slice(&v.z.to_bits().to_le_bytes());
    out.extend_from_slice(&v.w.to_bits().to_le_bytes());
    out
}

} // verus!
