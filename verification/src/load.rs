//! Loading assets.  Reading files is the caller's step; what the library
//! decides is which model formats it accepts, by the path's extension, and
//! how loading failures are classified.
use vstd::prelude::*;

use crate::names::str_eq;

verus! {

#[derive(Debug)]
pub enum LoadError {
    FailedToLoadShaderSource(String),
    FailedToLoadObjFromSource(String),
    FailedToParseObj(String),
}

impl LoadError {
    /// A fixed description of the failure; the carried strings hold the
    /// particulars.
    pub fn message(&self) -> (r: &'static str)
        ensures
            (self is FailedToLoadShaderSource ==> r@ == "failed to load shader source"@),
            (self is FailedToLoadObjFromSource ==> r@ == "failed to load the model source"@),
            (self is FailedToParseObj ==> r@ == "failed to parse the model source"@),
    {
        match self {
            LoadError::FailedToLoadShaderSource(_) => "failed to load shader source",
            LoadError::FailedToLoadObjFromSource(_) => "failed to load the model source",
            LoadError::FailedToParseObj(_) => "failed to parse the model source",
        }
    }
}

/// Whether a model file extension names a format this library parses: only
/// Wavefront model text.
pub fn mesh_format_supported(extension: &str) -> (r: bool)
    ensures
        r == (extension@ == "obj"@),
{
    str_eq(extension, "obj")
}

} // verus!
