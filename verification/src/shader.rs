//! Shader stages, the linked pipeline, and the interface that linking makes
//! visible: which attribute, uniform and block names the program declares and
//! at which locations.  Compiling and linking touch the device and happen
//! outside the library; what comes back — stage handles, the link outcome and
//! the queried locations — is handed in as plain values, and everything the
//! library decides from them is verified.
use vstd::prelude::*;

use crate::error::GLUtilityError;
use crate::names::NameMap;

verus! {

/// Stage markers, so that a vertex shader cannot stand where a fragment
/// shader must.
pub struct VertexShader;

pub struct FragmentShader;

pub struct GeometryShader;

pub struct TesselationShader;

/// The four stages, named; used where an error reports which stage is absent.
#[derive(Clone, Copy, PartialEq, Eq, Structural, Debug)]
pub enum StageKind {
    Vertex,
    Fragment,
    Geometry,
    Tesselation,
}

#[derive(Debug)]
pub enum ShaderError {
    FailedToParseSource(GLUtilityError),
    FailedToCompileShader(GLUtilityError),
    FailedToLinkShaders(GLUtilityError),
    FailedToLoadSource(GLUtilityError),
    MissingStage(StageKind),
}

/// A compiled shader stage: the handle the device returned for it.
pub struct Shader<Type> {
    pub id: u32,
    pub marker: core::marker::PhantomData<Type>,
}

impl<Type> Shader<Type> {
    /// Wraps the handle of a stage that compiled; the caller reports a failed
    /// compilation as `FailedToCompileShader` with the driver's log instead.
    pub fn from_compiled(id: u32) -> (r: Shader<Type>)
        ensures
            r.id == id,
    {
        Shader { id, marker: core::marker::PhantomData }
    }
}

/// A linked pipeline: both mandatory stages are present by construction.
pub struct ShaderPipeline {
    pub vertex_shader: Shader<VertexShader>,
    pub fragment_shader: Shader<FragmentShader>,
    pub geometry_shader: Option<Shader<GeometryShader>>,
    pub tessellation_shader: Option<Shader<TesselationShader>>,
}

/// The stage handles a link must attach, mandatory stages first, in order.
pub open spec fn stage_ids_spec(p: ShaderPipeline) -> Seq<u32> {
    seq![p.vertex_shader.id, p.fragment_shader.id] + (match p.geometry_shader {
        Some(g) => seq![g.id],
        None => Seq::empty(),
    }) + (match p.tessellation_shader {
        Some(t) => seq![t.id],
        None => Seq::empty(),
    })
}

impl ShaderPipeline {
    pub fn new(
        vertex_shader: Shader<VertexShader>,
        fragment_shader: Shader<FragmentShader>,
        geometry_shader: Option<Shader<GeometryShader>>,
        tessellation_shader: Option<Shader<TesselationShader>>,
    ) -> (r: ShaderPipeline)
        ensures
            r.vertex_shader.id == vertex_shader.id,
            r.fragment_shader.id == fragment_shader.id,
            r.geometry_shader == geometry_shader,
            r.tessellation_shader == tessellation_shader,
    {
        ShaderPipeline { vertex_shader, fragment_shader, geometry_shader, tessellation_shader }
    }

    /// Validates a set of optional stages: a pipeline comes back exactly when
    /// both mandatory stages are present, and a missing one is named, the
    /// vertex stage first.
    pub fn from_stages(
        vertex_shader: Option<Shader<VertexShader>>,
        fragment_shader: Option<Shader<FragmentShader>>,
        geometry_shader: Option<Shader<GeometryShader>>,
        tessellation_shader: Option<Shader<TesselationShader>>,
    ) -> (r: Result<ShaderPipeline, ShaderError>)
        ensures
            (r is Ok <==> vertex_shader is Some && fragment_shader is Some),
            (r matches Ok(p) ==> p.vertex_shader.id == vertex_shader.unwrap().id
                && p.fragment_shader.id == fragment_shader.unwrap().id && p.geometry_shader
                == geometry_shader && p.tessellation_shader == tessellation_shader),
            (vertex_shader is None ==> r == Err::<ShaderPipeline, ShaderError>(
                ShaderError::MissingStage(StageKind::Vertex),
            )),
            (vertex_shader is Some && fragment_shader is None ==> r == Err::<
                ShaderPipeline,
                ShaderError,
            >(ShaderError::MissingStage(StageKind::Fragment))),
    {
        match vertex_shader {
            None => Err(ShaderError::MissingStage(StageKind::Vertex)),
            Some(vs) => match fragment_shader {
                None => Err(ShaderError::MissingStage(StageKind::Fragment)),
                Some(fs) => Ok(
                    ShaderPipeline {
                        vertex_shader: vs,
                        fragment_shader: fs,
                        geometry_shader,
                        tessellation_shader,
                    },
                ),
            },
        }
    }

    /// The stage handles to attach before linking, mandatory stages first.
    pub fn stage_ids(&self) -> (r: Vec<u32>)
        ensures
            r@ == stage_ids_spec(*self),
    {
        let mut r: Vec<u32> = Vec::new();
        r.push(self.vertex_shader.id);
        r.push(self.fragment_shader.id);
        match &self.geometry_shader {
            Some(g) => { r.push(g.id) },
            None => {},
        }
        match &self.tessellation_shader {
            Some(t) => { r.push(t.id) },
            None => {},
        }
        proof {
            assert(r@ =~= stage_ids_spec(*self));
        }
        r
    }
}

/// The greatest attribute location the interface admits: four consecutive
/// slots must still fit in a location word above it.
pub open spec fn max_attribute_location() -> u32 {
    0xffff_fffb
}

/// What a linked program declares: attribute locations, uniform locations and
/// block indices, each under its active name.  Built once after a link from
/// the device's answers, or directly by a caller that knows them.
pub struct ShaderInterface {
    attributes: NameMap<u32>,
    uniforms: NameMap<i32>,
    blocks: NameMap<u32>,
}

impl ShaderInterface {
    pub closed spec fn wf(self) -> bool {
        &&& self.attributes.wf()
        &&& self.uniforms.wf()
        &&& self.blocks.wf()
        &&& forall|k: Seq<char>|
            self.attributes@.contains_key(k) ==> #[trigger] self.attributes@[k]
                <= max_attribute_location()
    }

    pub closed spec fn attributes_view(self) -> Map<Seq<char>, u32> {
        self.attributes@
    }

    pub closed spec fn uniforms_view(self) -> Map<Seq<char>, i32> {
        self.uniforms@
    }

    pub closed spec fn blocks_view(self) -> Map<Seq<char>, u32> {
        self.blocks@
    }

    pub fn new() -> (r: ShaderInterface)
        ensures
            r.wf(),
            r.attributes_view() == Map::<Seq<char>, u32>::empty(),
            r.uniforms_view() == Map::<Seq<char>, i32>::empty(),
            r.blocks_view() == Map::<Seq<char>, u32>::empty(),
    {
        ShaderInterface { attributes: NameMap::new(), uniforms: NameMap::new(), blocks: NameMap::new() }
    }

    /// Records an active attribute.  A location too large to leave room for
    /// the four slots of a matrix attribute is refused.
    pub fn add_attribute(&mut self, name: String, location: u32) -> (accepted: bool)
        requires
            old(self).wf(),
        ensures
            final(self).wf(),
            accepted == (location <= max_attribute_location()),
            accepted ==> final(self).attributes_view() == old(self).attributes_view().insert(
                name@,
                location,
            ),
            !accepted ==> *final(self) == *old(self),
            final(self).uniforms_view() == old(self).uniforms_view(),
            final(self).blocks_view() == old(self).blocks_view(),
    {
        if location <= 0xffff_fffb {
            self.attributes.insert(name, location);
            true
        } else {
            false
        }
    }

    pub fn add_uniform(&mut self, name: String, location: i32)
        requires
            old(self).wf(),
        ensures
            final(self).wf(),
            final(self).uniforms_view() == old(self).uniforms_view().insert(name@, location),
            final(self).attributes_view() == old(self).attributes_view(),
            final(self).blocks_view() == old(self).blocks_view(),
    {
        self.uniforms.insert(name, location);
    }

    pub fn add_block(&mut self, name: String, index: u32)
        requires
            old(self).wf(),
        ensures
            final(self).wf(),
            final(self).blocks_view() == old(self).blocks_view().insert(name@, index),
            final(self).attributes_view() == old(self).attributes_view(),
            final(self).uniforms_view() == old(self).uniforms_view(),
    {
        self.blocks.insert(name, index);
    }

    pub fn attribute(&self, name: &str) -> (r: Option<u32>)
        requires
            self.wf(),
        ensures
            (r matches Some(loc) ==> self.attributes_view().contains_key(name@) && loc
                == self.attributes_view()[name@] && loc <= max_attribute_location()),
            (r is None ==> !self.attributes_view().contains_key(name@)),
    {
        match self.attributes.get(name) {
            Some(loc) => Some(*loc),
            None => None,
        }
    }

    pub fn uniform(&self, name: &str) -> (r: Option<i32>)
        requires
            self.wf(),
        ensures
            (r matches Some(loc) ==> self.uniforms_view().contains_key(name@) && loc
                == self.uniforms_view()[name@]),
            (r is None ==> !self.uniforms_view().contains_key(name@)),
    {
        match self.uniforms.get(name) {
            Some(loc) => Some(*loc),
            None => None,
        }
    }

    pub fn block(&self, name: &str) -> (r: Option<u32>)
        requires
            self.wf(),
        ensures
            (r matches Some(index) ==> self.blocks_view().contains_key(name@) && index
                == self.blocks_view()[name@]),
            (r is None ==> !self.blocks_view().contains_key(name@)),
    {
        match self.blocks.get(name) {
            Some(index) => Some(*index),
            None => None,
        }
    }
}

} // verus!
