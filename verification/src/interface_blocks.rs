//! Interface blocks: a named, fixed-layout buffer the shader declares.  The
//! one block this library manages is the lights block; its index is looked
//! up by name in the linked program's interface and bound to one fixed
//! binding point.
use vstd::prelude::*;

use crate::error::GLUtilityError;

verus! {

#[derive(Debug)]
pub enum InterfaceBlockError {
    VectorLength,
    MatrixConversion(u8, u8),
    SettingUniformValue(String),
    CouldNotFindUniformIndex(String),
    Other(GLUtilityError),
}

impl InterfaceBlockError {
    /// A fixed description of the failure; the carried values hold the
    /// particulars.
    pub fn message(&self) -> (r: &'static str)
        ensures
            (self is CouldNotFindUniformIndex ==> r@
                == "failed to find the block's index"@),
    {
        match self {
            InterfaceBlockError::VectorLength => "length does not fit the device's count type",
            InterfaceBlockError::MatrixConversion(_, _) => "values do not fill the matrix shape",
            InterfaceBlockError::SettingUniformValue(_) => "failed to set the uniform value",
            InterfaceBlockError::CouldNotFindUniformIndex(_) => "failed to find the block's index",
            InterfaceBlockError::Other(_) => "encountered an interface block error",
        }
    }
}

/// A block resolved against the linked program: its index there, and the
/// binding point it is bound to.
#[derive(Clone, Copy, PartialEq, Eq, Structural, Debug)]
pub struct InterfaceBlock {
    pub block_index: u32,
    pub binding_point: u32,
}

} // verus!
