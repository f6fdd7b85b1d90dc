//! A verified model of an instanced-rendering engine: meshes attached to a
//! shader program, scene objects instancing shared geometry through
//! generation-checked handles, a dynamic light block with a fixed binary
//! layout, a lazily recomputed arc-ball camera, and the attribute wiring that
//! a draw needs.  Device calls themselves stay outside the library; what the
//! library produces for them is verified data.
use vstd::prelude::*;

pub mod camera;
pub mod error;
pub mod geom;
pub mod lights;
pub mod mesh;
pub mod interface_blocks;
pub mod load;
pub mod names;
pub mod program;
pub mod uniform;
pub mod projection;
pub mod scene_object;
pub mod shader;
pub mod vao;
pub mod wavefront;
pub mod window;

pub use camera::ArcBallCamera;
pub use camera::CameraEvent;
pub use camera::Direction;
pub use error::GLError;
pub use error::GLUtilityError;
pub use lights::LightColor;
pub use lights::LightSource;
pub use lights::Position;
pub use mesh::Mesh;
pub use program::GLProgram;
pub use projection::Projection;
pub use shader::Shader;
pub use uniform::Uniform;

verus! {

} // verus!
