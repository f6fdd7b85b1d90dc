//! Utility errors shared across the library, and the crate-wide rollup
//! error.  The rollup variants are declared beside the modules that produce
//! them; conversions into the rollup live here.
use vstd::prelude::*;

use crate::interface_blocks::InterfaceBlockError;
use crate::load::LoadError;
use crate::mesh::MeshError;
use crate::program::ProgramError;
use crate::scene_object::SceneObjectError;
use crate::shader::ShaderError;
use crate::uniform::UniformError;
use crate::vao::VAOError;

verus! {

/// Failures that several components share: string conversion at the device
/// boundary, driver logs, and file access.
#[derive(Debug)]
pub enum GLUtilityError {
    FailedToConvertToCString(String),
    ErrorLog(String),
    CouldNotCreateErrorLog,
    CouldNotOpenFile(String),
}

impl GLUtilityError {
    /// A fixed description of the failure; the carried strings hold the
    /// particulars.
    pub fn message(&self) -> (r: &'static str)
        ensures
            (self is FailedToConvertToCString ==> r@ == "string holds an interior nul byte"@),
            (self is ErrorLog ==> r@ == "the driver reported an error log"@),
            (self is CouldNotCreateErrorLog ==> r@
                == "error encountered, but no error log could be read"@),
            (self is CouldNotOpenFile ==> r@ == "could not open the file"@),
    {
        match self {
            GLUtilityError::FailedToConvertToCString(_) => "string holds an interior nul byte",
            GLUtilityError::ErrorLog(_) => "the driver reported an error log",
            GLUtilityError::CouldNotCreateErrorLog => "error encountered, but no error log could be read",
            GLUtilityError::CouldNotOpenFile(_) => "could not open the file",
        }
    }
}

/// The crate-wide rollup: every component's error, under one roof.
#[derive(Debug)]
pub enum GLError {
    Program(ProgramError),
    Shader(ShaderError),
    Uniform(UniformError),
    VAO(VAOError),
    Load(LoadError),
    Mesh(MeshError),
    SceneObject(SceneObjectError),
    InterfaceBlock(InterfaceBlockError),
    Other(GLUtilityError),
}

impl GLError {
    /// A fixed description of which component failed; the carried error
    /// holds the particulars.
    pub fn message(&self) -> (r: &'static str)
        ensures
            (self is Program ==> r@ == "program error"@),
            (self is Shader ==> r@ == "shader error"@),
            (self is Load ==> r@ == "file loading error"@),
    {
        match self {
            GLError::Program(_) => "program error",
            GLError::Shader(_) => "shader error",
            GLError::Uniform(_) => "uniform assignment error",
            GLError::VAO(_) => "attribute creation error",
            GLError::Load(_) => "file loading error",
            GLError::Mesh(_) => "mesh error",
            GLError::SceneObject(_) => "scene object error",
            GLError::InterfaceBlock(_) => "interface block error",
            GLError::Other(_) => "utility error",
        }
    }
}

impl From<ProgramError> for GLError {
    fn from(error: ProgramError) -> (r: GLError)
        ensures
            r == GLError::Program(error),
    {
        GLError::Program(error)
    }
}

impl vstd::std_specs::convert::FromSpecImpl<ProgramError> for GLError {
    open spec fn obeys_from_spec() -> bool {
        true
    }

    open spec fn from_spec(t: ProgramError) -> GLError {
        GLError::Program(t)
    }
}

impl From<ShaderError> for GLError {
    fn from(error: ShaderError) -> (r: GLError)
        ensures
            r == GLError::Shader(error),
    {
        GLError::Shader(error)
    }
}

impl vstd::std_specs::convert::FromSpecImpl<ShaderError> for GLError {
    open spec fn obeys_from_spec() -> bool {
        true
    }

    open spec fn from_spec(t: ShaderError) -> GLError {
        GLError::Shader(t)
    }
}

impl From<LoadError> for GLError {
    fn from(error: LoadError) -> (r: GLError)
        ensures
            r == GLError::Load(error),
    {
        GLError::Load(error)
    }
}

impl vstd::std_specs::convert::FromSpecImpl<LoadError> for GLError {
    open spec fn obeys_from_spec() -> bool {
        true
    }

    open spec fn from_spec(t: LoadError) -> GLError {
        GLError::Load(t)
    }
}

impl From<GLUtilityError> for GLError {
    fn from(error: GLUtilityError) -> (r: GLError)
        ensures
            r == GLError::Other(error),
    {
        GLError::Other(error)
    }
}

impl vstd::std_specs::convert::FromSpecImpl<GLUtilityError> for GLError {
    open spec fn obeys_from_spec() -> bool {
        true
    }

    open spec fn from_spec(t: GLUtilityError) -> GLError {
        GLError::Other(t)
    }
}

impl From<MeshError> for ProgramError {
    fn from(error: MeshError) -> (r: ProgramError)
        ensures
            r == ProgramError::Mesh(error),
    {
        ProgramError::Mesh(error)
    }
}

impl vstd::std_specs::convert::FromSpecImpl<MeshError> for ProgramError {
    open spec fn obeys_from_spec() -> bool {
        true
    }

    open spec fn from_spec(t: MeshError) -> ProgramError {
        ProgramError::Mesh(t)
    }
}

impl From<VAOError> for ProgramError {
    fn from(error: VAOError) -> (r: ProgramError)
        ensures
            r == ProgramError::VAO(error),
    {
        ProgramError::VAO(error)
    }
}

impl vstd::std_specs::convert::FromSpecImpl<VAOError> for ProgramError {
    open spec fn obeys_from_spec() -> bool {
        true
    }

    open spec fn from_spec(t: VAOError) -> ProgramError {
        ProgramError::VAO(t)
    }
}

impl From<VAOError> for MeshError {
    fn from(error: VAOError) -> (r: MeshError)
        ensures
            r == MeshError::VAO(error),
    {
        MeshError::VAO(error)
    }
}

impl vstd::std_specs::convert::FromSpecImpl<VAOError> for MeshError {
    open spec fn obeys_from_spec() -> bool {
        true
    }

    open spec fn from_spec(t: VAOError) -> MeshError {
        MeshError::VAO(t)
    }
}

} // verus!
