//! The program: the composition of a linked shader pipeline's interface, a
//! uniform store, the attached meshes, the scene objects instancing them,
//! the dynamic lights, and the camera.  Every operation here decides and
//! records; what it returns is exactly what the caller must perform against
//! the device, in order.
use vstd::prelude::*;

use crate::camera::ArcBallCamera;
use crate::camera::CameraAction;
use crate::camera::CameraEvent;
use crate::geom::mat3_is_identity;
use crate::geom::mat4_identity;
use crate::geom::mat4_is_identity;
use crate::geom::vec3_homogeneous_point;
use crate::geom::vec4_is_zero;
use crate::interface_blocks::InterfaceBlock;
use crate::interface_blocks::InterfaceBlockError;
use crate::lights::lights_bytes;
use crate::lights::pack_lights;
use crate::lights::LightColor;
use crate::lights::LightSource;
use crate::lights::Position;
use crate::mesh::AttachSetup;
use crate::mesh::Attached;
use crate::mesh::DrawPlan;
use crate::mesh::Mesh;
use crate::mesh::MeshError;
use crate::mesh::Unattached;
use crate::names::NameMap;
use crate::scene_object::collected_models;
use crate::scene_object::collected_normals;
use crate::scene_object::normal_transform_of;
use crate::scene_object::InstanceHandle;
use crate::scene_object::ObjectArena;
use crate::scene_object::SceneObject;
use crate::scene_object::SceneObjectError;
use crate::shader::FragmentShader;
use crate::shader::GeometryShader;
use crate::shader::Shader;
use crate::shader::ShaderError;
use crate::shader::ShaderInterface;
use crate::shader::TesselationShader;
use crate::shader::VertexShader;
use crate::uniform::Uniform;
use crate::uniform::UniformError;
use crate::uniform::UniformHandle;
use crate::uniform::UniformUpload;
use crate::uniform::UniformValue;
use crate::vao::slots_of;
use crate::vao::AttributeKind;
use crate::vao::VAOError;

verus! {

/// The capacity the shader-side light array declares; appends past it are
/// refused.
pub const MAX_LIGHTS: usize = 100;

/// The fixed binding point the lights block is bound to.
pub const LIGHTS_BINDING_POINT: u32 = 1;

#[derive(Debug)]
pub enum ProgramError {
    ShaderCompilation(ShaderError),
    Linking(String),
    SettingUniformValue(String),
    GetUniformLocation(String),
    VAOAlreadyExists(String),
    VAODoesNotExist(String),
    VAO(VAOError),
    SceneObject(SceneObjectError),
    Mesh(MeshError),
    Uniform(UniformError),
    InterfaceBlock(InterfaceBlockError),
    UniformNotAttachedToProgram(String),
    MeshAlreadyAttached(String),
    MeshNotFound(String),
    ObjectNotFound(String),
    BlockIndexNotFound(String),
    TooManyLights,
    End,
}

impl ProgramError {
    /// A fixed description of the failure; the carried values hold the
    /// particulars.
    pub fn message(&self) -> (r: &'static str)
        ensures
            (self is UniformNotAttachedToProgram ==> r@
                == "uniform has not been created for this program"@),
            (self is MeshAlreadyAttached ==> r@
                == "a mesh of this name is already attached"@),
            (self is MeshNotFound ==> r@ == "no mesh of this name is attached"@),
            (self is ObjectNotFound ==> r@ == "no object of this name exists"@),
            (self is BlockIndexNotFound ==> r@
                == "the shader declares no block of this name"@),
            (self is TooManyLights ==> r@ == "the light array is full"@),
            (self is End ==> r@ == "window was closed"@),
    {
        match self {
            ProgramError::ShaderCompilation(_) => "error in processing a shader",
            ProgramError::Linking(_) => "could not link shaders to the program",
            ProgramError::SettingUniformValue(_) => "failed to set a uniform value",
            ProgramError::GetUniformLocation(_) => "failed to find a uniform location",
            ProgramError::VAOAlreadyExists(_) => "a vertex array of this name already exists",
            ProgramError::VAODoesNotExist(_) => "no vertex array of this name exists",
            ProgramError::VAO(_) => "encountered a vertex array error",
            ProgramError::SceneObject(_) => "encountered a scene object error",
            ProgramError::Mesh(_) => "encountered a mesh error",
            ProgramError::Uniform(_) => "encountered a uniform error",
            ProgramError::InterfaceBlock(_) => "encountered an interface block error",
            ProgramError::UniformNotAttachedToProgram(_) => "uniform has not been created for this program",
            ProgramError::MeshAlreadyAttached(_) => "a mesh of this name is already attached",
            ProgramError::MeshNotFound(_) => "no mesh of this name is attached",
            ProgramError::ObjectNotFound(_) => "no object of this name exists",
            ProgramError::BlockIndexNotFound(_) => "the shader declares no block of this name",
            ProgramError::TooManyLights => "the light array is full",
            ProgramError::End => "window was closed",
        }
    }
}

/// Marker for a program over caller-supplied shaders.
pub struct CustomShader;

/// Markers for the builder's empty slots.
pub struct NoWindow;

pub struct NoVS;

pub struct NoFS;

/// Accumulates a window token and the shader stages before a program is
/// linked.
pub struct GLProgramBuilder<W, V, F> {
    pub window: W,
    pub vertex_shader: V,
    pub fragment_shader: F,
    pub geometry_shader: Option<Shader<GeometryShader>>,
    pub tessellation_shader: Option<Shader<TesselationShader>>,
}

impl<V, F> GLProgramBuilder<NoWindow, V, F> {
    /// Takes the caller's window token.
    pub fn use_window(self, window: u32) -> (r: GLProgramBuilder<u32, V, F>)
        ensures
            r.window == window,
            r.vertex_shader == self.vertex_shader,
            r.fragment_shader == self.fragment_shader,
            r.geometry_shader == self.geometry_shader,
            r.tessellation_shader == self.tessellation_shader,
    {
        let GLProgramBuilder {
            window: _,
            vertex_shader,
            fragment_shader,
            geometry_shader,
            tessellation_shader,
        } = self;
        GLProgramBuilder {
            window,
            vertex_shader,
            fragment_shader,
            geometry_shader,
            tessellation_shader,
        }
    }
}

impl<W> GLProgramBuilder<W, NoVS, NoFS> {
    /// Fills both mandatory stages, and whichever optional ones are given.
    pub fn with_shaders(
        self,
        vertex_shader: Shader<VertexShader>,
        fragment_shader: Shader<FragmentShader>,
        geometry_shader: Option<Shader<GeometryShader>>,
        tessellation_shader: Option<Shader<TesselationShader>>,
    ) -> (r: GLProgramBuilder<W, Shader<VertexShader>, Shader<FragmentShader>>)
        ensures
            r.window == self.window,
            r.vertex_shader.id == vertex_shader.id,
            r.fragment_shader.id == fragment_shader.id,
            (geometry_shader is Some ==> r.geometry_shader == geometry_shader),
            (geometry_shader is None ==> r.geometry_shader == self.geometry_shader),
            (tessellation_shader is Some ==> r.tessellation_shader == tessellation_shader),
            (tessellation_shader is None ==> r.tessellation_shader == self.tessellation_shader),
    {
        let GLProgramBuilder {
            window,
            vertex_shader: _,
            fragment_shader: _,
            geometry_shader: old_gs,
            tessellation_shader: old_ts,
        } = self;
        let gs = match geometry_shader {
            Some(g) => Some(g),
            None => old_gs,
        };
        let ts = match tessellation_shader {
            Some(t) => Some(t),
            None => old_ts,
        };
        GLProgramBuilder {
            window,
            vertex_shader,
            fragment_shader,
            geometry_shader: gs,
            tessellation_shader: ts,
        }
    }
}

/// The state a Blinn-Phong shaded program composes: camera, lights, the
/// scene objects it owns, and the meshes they instance.
pub struct BlinnPhong {
    pub camera: ArcBallCamera,
    pub lights: Vec<LightSource>,
    pub lights_buffer: Option<u32>,
    pub scene_objects: ObjectArena,
    pub object_names: NameMap<InstanceHandle>,
    pub meshes: Vec<Mesh<Attached>>,
    pub mesh_names: NameMap<usize>,
}

/// A semantic program: one linked device program, its interface, its
/// uniform store, and its typed state.
pub struct GLProgram<T> {
    pub id: u32,
    pub interface: ShaderInterface,
    pub uniforms: NameMap<i32>,
    pub data: T,
}

impl GLProgram<CustomShader> {
    /// A builder with every slot empty.
    pub fn new() -> (r: GLProgramBuilder<NoWindow, NoVS, NoFS>)
        ensures
            r.geometry_shader is None,
            r.tessellation_shader is None,
    {
        GLProgramBuilder {
            window: NoWindow,
            vertex_shader: NoVS,
            fragment_shader: NoFS,
            geometry_shader: None,
            tessellation_shader: None,
        }
    }
}

/// What appending a light asks of the caller: rebind the block, perhaps
/// create the backing buffer first, upload the packed bytes whole, and set
/// the light-count uniform.
pub struct LightsUpload {
    pub block: InterfaceBlock,
    pub allocate_buffer: bool,
    pub buffer_bytes: Vec<u8>,
    pub num_lights: UniformUpload,
}

/// One frame's work: the uniform updates to apply, then each mesh's draw,
/// in mesh order.
pub struct DrawFrame {
    pub uniform_updates: Vec<UniformUpload>,
    pub plans: Vec<DrawPlan>,
}

impl GLProgram<BlinnPhong> {
    pub open spec fn wf(self) -> bool {
        &&& self.interface.wf()
        &&& self.uniforms.wf()
        &&& self.data.object_names.wf()
        &&& self.data.mesh_names.wf()
        &&& self.data.camera.wf()
        &&& self.data.lights@.len() <= MAX_LIGHTS
        &&& forall|k: Seq<char>|
            self.data.object_names@.contains_key(k) ==> (#[trigger] self.data.object_names@[
            k]).index < self.data.scene_objects.slot_count()
        &&& forall|k: Seq<char>|
            self.data.mesh_names@.contains_key(k) ==> #[trigger] self.data.mesh_names@[k]
                < self.data.meshes@.len()
        &&& forall|i: int|
            0 <= i < self.data.meshes@.len() ==> (#[trigger] self.data.meshes@[i]).wf()
    }

    /// A fresh Blinn-Phong program over a linked device program and its
    /// queried interface, together with the fresh camera's one recompute
    /// request: applying it before the first draw leaves the camera's
    /// caches filled, so that draw refreshes the view-projection and
    /// camera-position uniforms.
    pub fn new_blinn_phong(id: u32, interface: ShaderInterface) -> (r: (
        GLProgram<BlinnPhong>,
        Vec<CameraAction>,
    ))
        requires
            interface.wf(),
        ensures
            r.0.wf(),
            r.0.id == id,
            r.0.interface == interface,
            r.0.uniforms@ == Map::<Seq<char>, i32>::empty(),
            r.0.data.lights@.len() == 0,
            r.0.data.meshes@.len() == 0,
            r.0.data.camera.wf(),
            r.0.data.camera.view_projection_matrix is None,
            r.0.data.object_names@ == Map::<Seq<char>, InstanceHandle>::empty(),
            r.0.data.mesh_names@ == Map::<Seq<char>, usize>::empty(),
            forall|g: InstanceHandle| !r.0.data.scene_objects.live(g),
            r.1@ == seq![CameraAction::RecomputeView],
    {
        let (camera, camera_actions) = ArcBallCamera::new();
        let program = GLProgram {
            id,
            interface,
            uniforms: NameMap::new(),
            data: BlinnPhong {
                camera,
                lights: Vec::new(),
                lights_buffer: None,
                scene_objects: ObjectArena::new(),
                object_names: NameMap::new(),
                meshes: Vec::new(),
                mesh_names: NameMap::new(),
            },
        };
        (program, camera_actions)
    }

    /// Attaches a mesh under its name.  A name already attached is
    /// refused; otherwise the mesh's own attachment runs, atomically, and
    /// its setup is handed back for the caller to perform.
    pub fn attach_mesh(&mut self, mesh: Mesh<Unattached>, vao_id: u32) -> (r: Result<
        AttachSetup,
        ProgramError,
    >)
        requires
            old(self).wf(),
        ensures
            final(self).wf(),
            final(self).id == old(self).id,
            final(self).interface == old(self).interface,
            (r is Ok <==> !old(self).data.mesh_names@.contains_key(mesh.name@)
                && mesh.data.indices@.len() <= i32::MAX
                && old(self).interface.attributes_view().contains_key("vertices"@) && old(self).interface.attributes_view().contains_key("normals"@) && old(self).interface.attributes_view().contains_key("object_mw_transforms"@) && old(self).interface.attributes_view().contains_key("object_mw_normal_transforms"@)),
            (old(self).data.mesh_names@.contains_key(mesh.name@) ==> (r matches Err(e) && (
            e matches ProgramError::MeshAlreadyAttached(n) && n@ == mesh.name@) && *final(self)
                == *old(self))),
            (r is Err ==> final(self).data.meshes == old(self).data.meshes && final(self).data.mesh_names == old(self).data.mesh_names),
            (r matches Err(e) ==> (!old(self).data.mesh_names@.contains_key(mesh.name@) ==> (
            e matches ProgramError::Mesh(_)))),
            (r is Ok ==> final(self).data.meshes@.len() == old(self).data.meshes@.len() + 1
                && final(self).data.meshes@.last().name@ == mesh.name@ && final(self).data.meshes@.last().data.objects@ == Seq::<InstanceHandle>::empty() && final(self).data.mesh_names@ == old(self).data.mesh_names@.insert(
                mesh.name@,
                old(self).data.meshes@.len() as usize,
            )),
            (r is Ok ==> {
                let stored = final(self).data.meshes@.last();
                &&& stored.data.vao.id == vao_id
                &&& stored.data.vao.program_id == old(self).id
                &&& stored.data.program_id == old(self).id
                &&& stored.data.vao.attributes_view().dom() == set![
                    "vertices"@,
                    "normals"@,
                    "object_mw_transforms"@,
                    "object_mw_normal_transforms"@,
                ]
                &&& stored.data.vao.elements.buffer_length == mesh.data.indices@.len() as i32
                &&& stored.draw_style == mesh.draw_style
                &&& stored.data.boundaries == mesh.data.boundaries
            }),
            (r matches Ok(s) ==> {
                &&& s.index_data == mesh.data.indices
                &&& s.vertex_data == mesh.data.vertices
                &&& s.normal_data == mesh.data.normals
                &&& s.vertex_attr.attribute.location == old(self).interface.attributes_view()[
                    "vertices"@]
                &&& s.vertex_attr.slots@ == slots_of(
                    s.vertex_attr.attribute.location,
                    AttributeKind::Vec3,
                    false,
                )
                &&& s.normal_attr.attribute.location == old(self).interface.attributes_view()[
                    "normals"@]
                &&& s.normal_attr.slots@ == slots_of(
                    s.normal_attr.attribute.location,
                    AttributeKind::Vec3,
                    false,
                )
                &&& s.transform_attr.attribute.location == old(self).interface.attributes_view()["object_mw_transforms"@]
                &&& s.transform_attr.slots@ == slots_of(
                    s.transform_attr.attribute.location,
                    AttributeKind::Mat4,
                    true,
                )
                &&& s.normal_transform_attr.attribute.location == old(self).interface.attributes_view()["object_mw_normal_transforms"@]
                &&& s.normal_transform_attr.slots@ == slots_of(
                    s.normal_transform_attr.attribute.location,
                    AttributeKind::Mat3,
                    true,
                )
                &&& s.transform_seed@.len() == 1
                &&& mat4_is_identity(s.transform_seed@[0])
                &&& s.normal_transform_seed@.len() == 1
                &&& mat3_is_identity(s.normal_transform_seed@[0])
            }),
            final(self).data.scene_objects == old(self).data.scene_objects,
            final(self).data.object_names == old(self).data.object_names,
            final(self).data.lights == old(self).data.lights,
            final(self).data.camera == old(self).data.camera,
            final(self).uniforms == old(self).uniforms,
    {
        let ghost pre = *self;
        if self.data.mesh_names.get(mesh.name.as_str()).is_some() {
            let name = mesh.name.clone();
            return Err(ProgramError::MeshAlreadyAttached(name));
        }
        let key = mesh.name.clone();
        match mesh.attach(self.id, vao_id, &self.interface) {
            Ok((attached, setup)) => {
                let index = self.data.meshes.len();
                self.data.meshes.push(attached);
                self.data.mesh_names.insert(key, index);
                proof {
                    assert forall|k: Seq<char>|
                        self.data.mesh_names@.contains_key(k) implies #[trigger] self
                        .data
                        .mesh_names@[k] < self.data.meshes@.len() by {
                        if k != key@ {
                            assert(pre.data.mesh_names@.contains_key(k));
                        }
                    }
                }
                Ok(setup)
            },
            Err(e) => Err(ProgramError::Mesh(e)),
        }
    }

    /// Instantiates an attached mesh as a named scene object: the object
    /// is created enabled at the given transform with its normal transform
    /// derived, stored strongly in the program's registry, and observed
    /// weakly by the mesh through a fresh handle.  Reusing a name drops
    /// the object that held it, as replacing the owner does.  The handle
    /// comes back for the caller's bookkeeping.
    pub fn create_object(&mut self, name: &str, mesh_name: &str, transform: ultraviolet::Mat4) -> (r:
        Result<InstanceHandle, ProgramError>)
        requires
            old(self).wf(),
        ensures
            final(self).wf(),
            (r is Ok <==> old(self).data.mesh_names@.contains_key(mesh_name@)),
            (r matches Err(e) ==> (e matches ProgramError::MeshNotFound(n) && n@ == mesh_name@)
                && *final(self) == *old(self)),
            (r matches Ok(h) ==> {
                let i = old(self).data.mesh_names@[mesh_name@] as int;
                &&& final(self).data.scene_objects.live(h)
                &&& final(self).data.scene_objects.object(h) == (SceneObject {
                    enabled: true,
                    model_transform: transform,
                    normal_transform: normal_transform_of(transform),
                })
                &&& !old(self).data.scene_objects.live(h)
                &&& final(self).data.object_names@ == old(self).data.object_names@.insert(
                    name@,
                    h,
                )
                &&& final(self).data.meshes@.len() == old(self).data.meshes@.len()
                &&& final(self).data.meshes@[i].data.objects@ == old(self).data.meshes@[i].data.objects@.push(h)
                &&& (forall|j: int|
                    0 <= j < final(self).data.meshes@.len() && j != i
                        ==> #[trigger] final(self).data.meshes@[j] == old(self).data.meshes@[j])
                &&& (old(self).data.object_names@.contains_key(name@) ==> !final(self).data.scene_objects.live(old(self).data.object_names@[name@]))
                &&& (forall|g: InstanceHandle|
                    g != h && (!old(self).data.object_names@.contains_key(name@) || g != old(self).data.object_names@[name@]) ==> final(self).data.scene_objects.live(g)
                        == old(self).data.scene_objects.live(g))
                &&& (forall|g: InstanceHandle|
                    g != h && (!old(self).data.object_names@.contains_key(name@) || g != old(self).data.object_names@[name@]) && old(self).data.scene_objects.live(g)
                        ==> final(self).data.scene_objects.object(g) == old(self).data.scene_objects.object(g))
            }),
            final(self).id == old(self).id,
            final(self).interface == old(self).interface,
            final(self).uniforms == old(self).uniforms,
            final(self).data.lights == old(self).data.lights,
            final(self).data.camera == old(self).data.camera,
            final(self).data.mesh_names == old(self).data.mesh_names,
    {
        let ghost pre = *self;
        let index: usize = match self.data.mesh_names.get(mesh_name) {
            Some(i) => *i,
            None => {
                return Err(ProgramError::MeshNotFound(mesh_name.to_owned()));
            },
        };
        // a reused name releases the object that held it; the old handle
        // goes dead, exactly as dropping the strong owner would
        match self.data.object_names.get(name) {
            Some(old_handle) => {
                let old_handle = *old_handle;
                let _ = self.data.scene_objects.remove(old_handle);
            },
            None => {},
        }
        let ghost mid = self.data.scene_objects;
        let object = SceneObject::new(transform);
        let handle = self.data.scene_objects.insert(object);
        self.data.object_names.insert(name.to_owned(), handle);
        let mesh = &mut self.data.meshes[index];
        mesh.add_instance(handle);
        proof {
            assert(self.data.meshes@.len() == pre.data.meshes@.len());
            assert(self.data.meshes@[index as int].data.objects@ == pre.data.meshes@[
            index as int].data.objects@.push(handle));
            assert(forall|j: int|
                0 <= j < self.data.meshes@.len() && j != index ==> self.data.meshes@[j]
                    == pre.data.meshes@[j]);
            assert(self.data.scene_objects.live(handle));
            assert(!pre.data.scene_objects.live(handle)) by {
                if pre.data.scene_objects.live(handle) {
                    pre.data.scene_objects.lemma_live_index(handle);
                }
            }
            assert(self.data.object_names@ == pre.data.object_names@.insert(name@, handle));
            assert(forall|i: int|
                0 <= i < self.data.meshes@.len() ==> (#[trigger] self.data.meshes@[i]).wf());
            assert(forall|k: Seq<char>|
                self.data.object_names@.contains_key(k) ==> (#[trigger] self.data.object_names@[
                k]).index < self.data.scene_objects.slot_count());
            if pre.data.object_names@.contains_key(name@) {
                let oldh = pre.data.object_names@[name@];
                assert(oldh.index < mid.slot_count());
                assert(oldh != handle);
                assert(!self.data.scene_objects.live(oldh)) by {
                    assert(!mid.live(oldh));
                    assert(self.data.scene_objects.live(oldh) == mid.live(oldh));
                }
                assert(forall|g: InstanceHandle|
                    g != handle && g != oldh ==> self.data.scene_objects.live(g)
                        == pre.data.scene_objects.live(g));
            }
        }
        Ok(handle)
    }

    /// Sets whether a named object is included by draws.
    pub fn set_enabled(&mut self, name: &str, enabled: bool) -> (r: Result<(), ProgramError>)
        requires
            old(self).wf(),
        ensures
            final(self).wf(),
            (r is Ok <==> old(self).data.object_names@.contains_key(name@) && old(self).data.scene_objects.live(old(self).data.object_names@[name@])),
            (r matches Err(e) ==> (e matches ProgramError::ObjectNotFound(n) && n@ == name@)
                && *final(self) == *old(self)),
            (r is Ok ==> {
                let h = old(self).data.object_names@[name@];
                &&& final(self).data.scene_objects.live(h)
                &&& final(self).data.scene_objects.object(h) == (SceneObject {
                    enabled,
                    ..old(self).data.scene_objects.object(h)
                })
                &&& (forall|g: InstanceHandle|
                    g != h ==> final(self).data.scene_objects.live(g) == old(self).data.scene_objects.live(g))
                &&& (forall|g: InstanceHandle|
                    g != h && old(self).data.scene_objects.live(g) ==> final(self).data.scene_objects.object(g) == old(self).data.scene_objects.object(g))
                &&& final(self).data.meshes == old(self).data.meshes
                &&& final(self).data.object_names == old(self).data.object_names
            }),
    {
        let handle: InstanceHandle = match self.data.object_names.get(name) {
            Some(h) => *h,
            None => {
                return Err(ProgramError::ObjectNotFound(name.to_owned()));
            },
        };
        let ok = self.data.scene_objects.set_enabled(handle, enabled);
        if ok {
            Ok(())
        } else {
            Err(ProgramError::ObjectNotFound(name.to_owned()))
        }
    }

    /// Releases a named object: the registry's strong hold is dropped, the
    /// name is freed, and every handle to the object goes dead — the next
    /// draw of its mesh excludes it silently.
    pub fn remove_object(&mut self, name: &str) -> (r: Result<(), ProgramError>)
        requires
            old(self).wf(),
        ensures
            final(self).wf(),
            (r is Ok <==> old(self).data.object_names@.contains_key(name@)),
            (r matches Err(e) ==> (e matches ProgramError::ObjectNotFound(n) && n@ == name@)
                && *final(self) == *old(self)),
            (r is Ok ==> {
                let h = old(self).data.object_names@[name@];
                &&& !final(self).data.scene_objects.live(h)
                &&& final(self).data.object_names@ == old(self).data.object_names@.remove(name@)
                &&& (forall|g: InstanceHandle|
                    g != h ==> final(self).data.scene_objects.live(g) == old(self).data.scene_objects.live(g))
                &&& (forall|g: InstanceHandle|
                    g != h && old(self).data.scene_objects.live(g) ==> final(self).data.scene_objects.object(g) == old(self).data.scene_objects.object(g))
                &&& final(self).data.meshes == old(self).data.meshes
            }),
    {
        let handle: InstanceHandle = match self.data.object_names.get(name) {
            Some(h) => *h,
            None => {
                return Err(ProgramError::ObjectNotFound(name.to_owned()));
            },
        };
        let _ = self.data.scene_objects.remove(handle);
        self.data.object_names.remove(name);
        Ok(())
    }

    /// Appends a light, colour clamped at construction, and describes the
    /// whole re-upload: the block binding, the packed bytes of every light
    /// — 32 each — and the new count for the `num_lights` uniform.  The
    /// shader's array holds a hundred entries; an append past that is
    /// refused, as is a program whose shader declares no `Lights` block or
    /// whose `num_lights` uniform was never created.
    pub fn add_light(&mut self, position: &Position, color: &LightColor) -> (r: Result<
        LightsUpload,
        ProgramError,
    >)
        requires
            old(self).wf(),
        ensures
            final(self).wf(),
            (r is Ok <==> old(self).interface.blocks_view().contains_key("Lights"@) && old(self).data.lights@.len() < MAX_LIGHTS && old(self).uniforms@.contains_key(
                "num_lights"@,
            )),
            (r is Err ==> *final(self) == *old(self)),
            (!old(self).interface.blocks_view().contains_key("Lights"@) ==> (r matches Err(e)
                && (e matches ProgramError::BlockIndexNotFound(n) && n@ == "Lights"@))),
            (old(self).interface.blocks_view().contains_key("Lights"@) && old(self).data.lights@.len() >= MAX_LIGHTS ==> r == Err::<LightsUpload, ProgramError>(
                ProgramError::TooManyLights,
            )),
            (old(self).interface.blocks_view().contains_key("Lights"@) && old(self).data.lights@.len() < MAX_LIGHTS && !old(self).uniforms@.contains_key("num_lights"@)
                ==> (r matches Err(e) && (e matches ProgramError::UniformNotAttachedToProgram(n)
                && n@ == "num_lights"@))),
            (r matches Ok(up) ==> {
                &&& final(self).data.lights@.len() == old(self).data.lights@.len() + 1
                &&& final(self).data.lights@.drop_last() == old(self).data.lights@
                &&& final(self).data.lights@.last().color == color.color
                &&& final(self).data.lights@.last().position == vec3_homogeneous_point(
                    position.position,
                )
                &&& up.block.block_index == old(self).interface.blocks_view()["Lights"@]
                &&& up.block.binding_point == LIGHTS_BINDING_POINT
                &&& up.allocate_buffer == (old(self).data.lights_buffer is None)
                &&& up.buffer_bytes@ == lights_bytes(final(self).data.lights@)
                &&& up.buffer_bytes@.len() == 32 * final(self).data.lights@.len()
                &&& up.num_lights.location == old(self).uniforms@["num_lights"@]
                &&& up.num_lights.value == UniformValue::U32(
                    final(self).data.lights@.len() as u32,
                )
                &&& final(self).data.meshes == old(self).data.meshes
                &&& final(self).data.camera == old(self).data.camera
                &&& final(self).data.scene_objects == old(self).data.scene_objects
            }),
    {
        let block_index: u32 = match self.interface.block("Lights") {
            Some(i) => i,
            None => {
                return Err(ProgramError::BlockIndexNotFound("Lights".to_owned()));
            },
        };
        if self.data.lights.len() >= MAX_LIGHTS {
            return Err(ProgramError::TooManyLights);
        }
        let num_lights_location: i32 = match self.uniforms.get("num_lights") {
            Some(loc) => *loc,
            None => {
                return Err(ProgramError::UniformNotAttachedToProgram("num_lights".to_owned()));
            },
        };
        let light = LightSource::new(color, position);
        self.data.lights.push(light);
        let buffer_bytes = pack_lights(&self.data.lights);
        let allocate_buffer = self.data.lights_buffer.is_none();
        let count = self.data.lights.len();
        Ok(
            LightsUpload {
                block: InterfaceBlock { block_index, binding_point: LIGHTS_BINDING_POINT },
                allocate_buffer,
                buffer_bytes,
                num_lights: UniformUpload {
                    location: num_lights_location,
                    value: UniformValue::U32(count as u32),
                },
            },
        )
    }

    /// Records the buffer the caller created for the lights block.
    pub fn record_lights_buffer(&mut self, buffer_id: u32)
        ensures
            final(self).data.lights_buffer == Some(buffer_id),
            old(self).wf() ==> final(self).wf(),
    {
        self.data.lights_buffer = Some(buffer_id);
    }

    /// Creates the scene's ambient light colour uniform.
    pub fn ambient_light(&mut self, color: &LightColor) -> (r: Result<UniformUpload, ProgramError>)
        requires
            old(self).wf(),
        ensures
            final(self).wf(),
            (r is Ok <==> old(self).interface.uniforms_view().contains_key(
                "ambient_light_color"@,
            )),
            (r matches Ok(up) ==> up.value == UniformValue::Vec4(color.color) && up.location
                == old(self).interface.uniforms_view()["ambient_light_color"@] && final(self).uniforms@ == old(self).uniforms@.insert("ambient_light_color"@, up.location)),
            (r is Err ==> *final(self) == *old(self)),
    {
        let value = UniformValue::Vec4(color.to_vec4());
        self.create_uniform("ambient_light_color", value)
    }

    /// Resolves a named uniform against the shader, records it, and hands
    /// back the initial upload.  A name the shader does not declare is
    /// `GetUniformLocation`.
    pub fn create_uniform(&mut self, name: &str, value: UniformValue) -> (r: Result<
        UniformUpload,
        ProgramError,
    >)
        requires
            old(self).wf(),
        ensures
            final(self).wf(),
            final(self).id == old(self).id,
            final(self).interface == old(self).interface,
            final(self).data == old(self).data,
            (r is Ok <==> old(self).interface.uniforms_view().contains_key(name@)),
            (r matches Err(e) ==> (e matches ProgramError::Uniform(u) && (u matches
            UniformError::GetUniformLocation(n) && n@ == name@)) && *final(self) == *old(self)),
            (r matches Ok(up) ==> up.location == old(self).interface.uniforms_view()[name@]
                && up.value == value && final(self).uniforms@ == old(self).uniforms@.insert(
                name@,
                up.location,
            )),
    {
        let uniform = Uniform::new(name.to_owned(), value);
        self.attach_uniform(uniform)
    }

    /// Attaches an already-built uniform: the named location is looked up,
    /// stored under the name, and the initial upload handed back.
    pub fn attach_uniform(&mut self, uniform: Uniform) -> (r: Result<UniformUpload, ProgramError>)
        requires
            old(self).wf(),
        ensures
            final(self).wf(),
            final(self).id == old(self).id,
            final(self).interface == old(self).interface,
            final(self).data == old(self).data,
            (r is Ok <==> old(self).interface.uniforms_view().contains_key(uniform.name@)),
            (r matches Err(e) ==> (e matches ProgramError::Uniform(u) && (u matches
            UniformError::GetUniformLocation(n) && n@ == uniform.name@)) && *final(self) == *old(self)),
            (r matches Ok(up) ==> up.location
                == old(self).interface.uniforms_view()[uniform.name@] && up.value == uniform.value
                && final(self).uniforms@ == old(self).uniforms@.insert(uniform.name@, up.location)),
    {
        let location: i32 = match self.interface.uniform(uniform.name.as_str()) {
            Some(loc) => loc,
            None => {
                return Err(ProgramError::Uniform(UniformError::GetUniformLocation(uniform.name)));
            },
        };
        self.uniforms.insert(uniform.name, location);
        Ok(UniformUpload { location, value: uniform.value })
    }

    /// The handle of a uniform created earlier, if any.
    pub fn get_uniform(&self, name: &str) -> (r: Option<UniformHandle>)
        requires
            self.wf(),
        ensures
            (r matches Some(h) ==> self.uniforms@.contains_key(name@) && h.location
                == self.uniforms@[name@]),
            (r is None ==> !self.uniforms@.contains_key(name@)),
    {
        match self.uniforms.get(name) {
            Some(loc) => Some(UniformHandle { location: *loc }),
            None => None,
        }
    }

    /// The upload that sets an existing uniform to a new value.  A uniform
    /// never created is an error, not a silent no-op.
    pub fn update_uniform(&self, name: &str, value: UniformValue) -> (r: Result<
        UniformUpload,
        ProgramError,
    >)
        requires
            self.wf(),
        ensures
            (r is Ok <==> self.uniforms@.contains_key(name@)),
            (r matches Err(e) ==> (e matches ProgramError::UniformNotAttachedToProgram(n) && n@
                == name@)),
            (r matches Ok(up) ==> up.location == self.uniforms@[name@] && up.value == value),
    {
        match self.uniforms.get(name) {
            Some(loc) => Ok(UniformUpload { location: *loc, value }),
            None => Err(ProgramError::UniformNotAttachedToProgram(name.to_owned())),
        }
    }

    /// Creates the uniforms every frame reads — the ambient colour at
    /// zero, the view-projection and camera-position matrices at the
    /// identity, and the light count at nought — each resolved to the
    /// shader's location.  The whole creation is atomic: a shader missing
    /// any of the four names leaves the program untouched, the first
    /// absent name reported.
    pub fn initialize(&mut self) -> (r: Result<Vec<UniformUpload>, ProgramError>)
        requires
            old(self).wf(),
        ensures
            final(self).wf(),
            final(self).id == old(self).id,
            final(self).interface == old(self).interface,
            final(self).data == old(self).data,
            (r is Ok <==> old(self).interface.uniforms_view().contains_key(
                "ambient_light_color"@,
            ) && old(self).interface.uniforms_view().contains_key("view_projection_matrix"@)
                && old(self).interface.uniforms_view().contains_key("camera_position"@) && old(self).interface.uniforms_view().contains_key("num_lights"@)),
            (r is Err ==> *final(self) == *old(self)),
            (r matches Err(e) ==> (e matches ProgramError::Uniform(u) && u is
            GetUniformLocation)),
            (r matches Ok(ups) ==> {
                &&& ups@.len() == 4
                &&& ups@[0].location == old(self).interface.uniforms_view()[
                    "ambient_light_color"@]
                &&& (ups@[0].value matches UniformValue::Vec4(v) && vec4_is_zero(v))
                &&& ups@[1].location == old(self).interface.uniforms_view()[
                    "view_projection_matrix"@]
                &&& (ups@[1].value matches UniformValue::Mat4(m) && mat4_is_identity(m))
                &&& ups@[2].location == old(self).interface.uniforms_view()[
                    "camera_position"@]
                &&& (ups@[2].value matches UniformValue::Mat4(m) && mat4_is_identity(m))
                &&& ups@[3].location == old(self).interface.uniforms_view()["num_lights"@]
                &&& ups@[3].value == UniformValue::U32(0u32)
                &&& final(self).uniforms@ == old(self).uniforms@.insert(
                    "ambient_light_color"@,
                    ups@[0].location,
                ).insert("view_projection_matrix"@, ups@[1].location).insert(
                    "camera_position"@,
                    ups@[2].location,
                ).insert("num_lights"@, ups@[3].location)
            }),
    {
        // the whole creation is atomic: every name must resolve before any
        // is recorded
        if self.interface.uniform("ambient_light_color").is_none() {
            return Err(
                ProgramError::Uniform(
                    UniformError::GetUniformLocation("ambient_light_color".to_owned()),
                ),
            );
        }
        if self.interface.uniform("view_projection_matrix").is_none() {
            return Err(
                ProgramError::Uniform(
                    UniformError::GetUniformLocation("view_projection_matrix".to_owned()),
                ),
            );
        }
        if self.interface.uniform("camera_position").is_none() {
            return Err(
                ProgramError::Uniform(
                    UniformError::GetUniformLocation("camera_position".to_owned()),
                ),
            );
        }
        if self.interface.uniform("num_lights").is_none() {
            return Err(
                ProgramError::Uniform(UniformError::GetUniformLocation("num_lights".to_owned())),
            );
        }
        let mut uploads: Vec<UniformUpload> = Vec::new();
        let up = match self.create_uniform(
            "ambient_light_color",
            UniformValue::Vec4(crate::geom::vec4_zero()),
        ) {
            Ok(u) => u,
            Err(_) => {
                return vstd::pervasive::unreached();
            },
        };
        uploads.push(up);
        let up = match self.create_uniform(
            "view_projection_matrix",
            UniformValue::Mat4(mat4_identity()),
        ) {
            Ok(u) => u,
            Err(_) => {
                return vstd::pervasive::unreached();
            },
        };
        uploads.push(up);
        let up = match self.create_uniform("camera_position", UniformValue::Mat4(mat4_identity()))
            {
            Ok(u) => u,
            Err(_) => {
                return vstd::pervasive::unreached();
            },
        };
        uploads.push(up);
        let up = match self.create_uniform("num_lights", UniformValue::U32(0)) {
            Ok(u) => u,
            Err(_) => {
                return vstd::pervasive::unreached();
            },
        };
        uploads.push(up);
        Ok(uploads)
    }

    /// Feeds the frame's camera events to the camera: the radius and the
    /// projection fold over the queue in order, an empty queue changes
    /// nothing, and the returned kernel actions are the queue's rotation
    /// and drag work, in order, closed by one recompute request.
    pub fn update_camera(&mut self, events: Vec<CameraEvent>) -> (r: Vec<CameraAction>)
        requires
            old(self).wf(),
        ensures
            final(self).wf(),
            r@ == crate::camera::actions_of(events@) + (if events@.len() > 0 {
                seq![CameraAction::RecomputeView]
            } else {
                Seq::<CameraAction>::empty()
            }),
            final(self).data.camera.radius_milli as int == crate::camera::radius_after_events(
                old(self).data.camera.radius_milli as int,
                events@,
            ),
            final(self).data.camera.projection == crate::camera::projection_after_events(
                old(self).data.camera.projection,
                events@,
            ),
            events@.len() == 0 ==> final(self).data.camera == old(self).data.camera,
            final(self).data.camera.view_matrix == old(self).data.camera.view_matrix,
            final(self).data.meshes == old(self).data.meshes,
            final(self).data.scene_objects == old(self).data.scene_objects,
            final(self).uniforms == old(self).uniforms,
    {
        self.data.camera.update(events)
    }

    /// Plans one frame: if the camera recomputed since the last draw, the
    /// view-projection and camera-position uniforms are refreshed first;
    /// then every mesh's draw follows, in attachment order, each
    /// collecting its live, enabled instances.
    pub fn draw(&mut self) -> (r: Result<DrawFrame, ProgramError>)
        requires
            old(self).wf(),
        ensures
            final(self).wf(),
            (r is Ok <==> (old(self).data.camera.view_projection_matrix is None || (old(self).uniforms@.contains_key("view_projection_matrix"@) && old(self).uniforms@.contains_key("camera_position"@)))),
            (r matches Ok(f) ==> f.plans@.len() == old(self).data.meshes@.len() && (forall|i: int|
                0 <= i < f.plans@.len() ==> {
                    &&& (#[trigger] f.plans@[i]).transforms@ == collected_models(
                        old(self).data.scene_objects,
                        old(self).data.meshes@[i].data.objects@,
                    )
                    &&& f.plans@[i].normal_transforms@ == collected_normals(
                        old(self).data.scene_objects,
                        old(self).data.meshes@[i].data.objects@,
                    )
                    &&& f.plans@[i].instance_count == f.plans@[i].transforms@.len()
                    &&& f.plans@[i].issue_draw == (f.plans@[i].instance_count > 0)
                    &&& (f.plans@[i].transform_upload is Some <==> f.plans@[i].instance_count
                        > 1)
                    &&& (f.plans@[i].normal_transform_upload is Some <==> f.plans@[
                    i].instance_count > 1)
                    &&& f.plans@[i].vao_id == old(self).data.meshes@[i].data.vao.id
                    &&& f.plans@[i].program_id == old(self).data.meshes@[i].data.program_id
                    &&& f.plans@[i].element_buffer == old(
                        self,
                    ).data.meshes@[i].data.vao.elements.buffer_id
                    &&& f.plans@[i].element_count == old(self).data.meshes@[i].data.vao.elements.buffer_length
                    &&& ((old(self).data.meshes@[i].draw_style is Triangles) ==> f.plans@[
                    i].mode == 4)
                    &&& ((old(self).data.meshes@[i].draw_style is Points) ==> f.plans@[i].mode
                        == 0)
                })),
            (r matches Ok(f) ==> (old(self).data.camera.view_projection_matrix matches Some(m)
                ==> f.uniform_updates@.len() == 2 && f.uniform_updates@[0] == (UniformUpload {
                location: old(self).uniforms@["view_projection_matrix"@],
                value: UniformValue::Mat4(m),
            }) && f.uniform_updates@[1] == (UniformUpload {
                location: old(self).uniforms@["camera_position"@],
                value: UniformValue::Vec3(old(self).data.camera.position),
            }))),
            (r matches Ok(f) ==> (old(self).data.camera.view_projection_matrix is None
                ==> f.uniform_updates@.len() == 0)),
            final(self).data.meshes == old(self).data.meshes,
            final(self).data.scene_objects == old(self).data.scene_objects,
            final(self).data.lights == old(self).data.lights,
            final(self).uniforms == old(self).uniforms,
    {
        let mut uniform_updates: Vec<UniformUpload> = Vec::new();
        let vpm = self.data.camera.view_projection_matrix();
        match vpm {
            Some(m) => {
                let up = match self.update_uniform(
                    "view_projection_matrix",
                    UniformValue::Mat4(m),
                ) {
                    Ok(u) => u,
                    Err(e) => {
                        return Err(e);
                    },
                };
                uniform_updates.push(up);
                let position = self.data.camera.position();
                let up = match self.update_uniform("camera_position", UniformValue::Vec3(position))
                    {
                    Ok(u) => u,
                    Err(e) => {
                        return Err(e);
                    },
                };
                uniform_updates.push(up);
            },
            None => {},
        }
        let n = self.data.meshes.len();
        let mut plans: Vec<DrawPlan> = Vec::new();
        let mut i: usize = 0;
        while i < n
            invariant
                i <= n,
                n == self.data.meshes@.len(),
                self.wf(),
                self.data.meshes == old(self).data.meshes,
                self.data.scene_objects == old(self).data.scene_objects,
                plans@.len() == i,
                forall|j: int|
                    0 <= j < i ==> {
                        &&& (#[trigger] plans@[j]).transforms@ == collected_models(
                            old(self).data.scene_objects,
                            old(self).data.meshes@[j].data.objects@,
                        )
                        &&& plans@[j].normal_transforms@ == collected_normals(
                            old(self).data.scene_objects,
                            old(self).data.meshes@[j].data.objects@,
                        )
                        &&& plans@[j].instance_count == plans@[j].transforms@.len()
                        &&& plans@[j].issue_draw == (plans@[j].instance_count > 0)
                        &&& (plans@[j].transform_upload is Some <==> plans@[j].instance_count
                            > 1)
                        &&& (plans@[j].normal_transform_upload is Some <==> plans@[
                        j].instance_count > 1)
                        &&& plans@[j].vao_id == old(self).data.meshes@[j].data.vao.id
                        &&& plans@[j].program_id == old(self).data.meshes@[j].data.program_id
                        &&& plans@[j].element_buffer == old(
                            self,
                        ).data.meshes@[j].data.vao.elements.buffer_id
                        &&& plans@[j].element_count == old(self).data.meshes@[j].data.vao.elements.buffer_length
                        &&& ((old(self).data.meshes@[j].draw_style is Triangles) ==> plans@[
                        j].mode == 4)
                        &&& ((old(self).data.meshes@[j].draw_style is Points) ==> plans@[
                        j].mode == 0)
                    },
            decreases n - i,
        {
            let plan = self.data.meshes[i].draw(&self.data.scene_objects);
            plans.push(plan);
            i += 1;
        }
        Ok(DrawFrame { uniform_updates, plans })
    }
}

} // verus!
