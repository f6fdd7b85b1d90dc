//! Named uniforms.  A uniform starts as a name with a value; attaching it
//! resolves the name against the linked program's interface and leaves a
//! handle holding the resolved location.  Setting a value on the device is
//! the caller's step; what to set, and at which location, is decided here.
use vstd::prelude::*;

verus! {

#[derive(Debug)]
pub enum UniformError {
    VectorLength,
    MatrixConversion(u8, u8),
    SettingUniformValue(String),
    GetUniformLocation(String),
}

impl UniformError {
    /// A fixed description of the failure; the carried values hold the
    /// particulars.
    pub fn message(&self) -> (r: &'static str)
        ensures
            (self is GetUniformLocation ==> r@ == "failed to find the uniform's location"@),
    {
        match self {
            UniformError::VectorLength => "length does not fit the device's count type",
            UniformError::MatrixConversion(_, _) => "values do not fill the matrix shape",
            UniformError::SettingUniformValue(_) => "failed to set the uniform value",
            UniformError::GetUniformLocation(_) => "failed to find the uniform's location",
        }
    }
}

/// A value a uniform can carry to the shader.
#[derive(Clone, Copy)]
pub enum UniformValue {
    U32(u32),
    I32(i32),
    Vec2(ultraviolet::Vec2),
    Vec3(ultraviolet::Vec3),
    Vec4(ultraviolet::Vec4),
    Mat3(ultraviolet::Mat3),
    Mat4(ultraviolet::Mat4),
}

/// A named uniform value, not yet resolved against a program.
pub struct Uniform {
    pub name: String,
    pub value: UniformValue,
}

impl Uniform {
    pub fn new(name: String, value: UniformValue) -> (r: Uniform)
        ensures
            r.name == name,
            r.value == value,
    {
        Uniform { name, value }
    }
}

/// A uniform resolved to its location in the linked program.
#[derive(Clone, Copy, PartialEq, Eq, Structural, Debug)]
pub struct UniformHandle {
    pub location: i32,
}

/// One upload for the caller to perform: this value, at this location.
#[derive(Clone, Copy)]
pub struct UniformUpload {
    pub location: i32,
    pub value: UniformValue,
}

} // verus!
