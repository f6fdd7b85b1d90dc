//! The mesh and its life cycle.  An unattached mesh holds its geometry on
//! the CPU side: positions, normals, texture coordinates, a triangle index
//! list built by deduplicating vertex/normal index pairs, and the eight
//! corners of its axis-aligned bounds.  Attaching hands the geometry over
//! for upload and leaves only the vertex-array model, the owning program's
//! id, and the handles of the scene objects instancing the mesh.  A draw
//! collects the enabled instances' transforms and describes the one
//! instanced, indexed draw call to issue.
use vstd::prelude::*;

use crate::error::GLUtilityError;
use crate::geom::mat3_identity;
use crate::geom::mat3_is_identity;
use crate::geom::mat4_identity;
use crate::geom::mat4_is_identity;
use crate::geom::vec3_from_components;
use crate::geom::vec3_is_zero;
use crate::geom::vec3_max;
use crate::geom::vec3_max_by_component;
use crate::geom::vec3_min;
use crate::geom::vec3_min_by_component;
use crate::geom::vec3_select;
use crate::geom::vec3_zero;
use crate::scene_object::collected_models;
use crate::scene_object::collected_normals;
use crate::scene_object::InstanceHandle;
use crate::scene_object::ObjectArena;
use crate::shader::ShaderInterface;
use crate::vao::AttributeKind;
use crate::vao::AttributeSetup;
use crate::vao::slots_of;
use crate::vao::VAO;
use crate::vao::VAOError;

verus! {

#[derive(Debug)]
pub enum MeshError {
    FailedToParseFile(String),
    UnknownFileType(String),
    Other(GLUtilityError),
    VAO(VAOError),
    UnsupportedPrimitive,
    InvalidIndex,
}

impl MeshError {
    /// A fixed description of the failure; the carried values hold the
    /// particulars.
    pub fn message(&self) -> (r: &'static str)
        ensures
            (self is UnsupportedPrimitive ==> r@
                == "only triangle primitives are supported"@),
            (self is InvalidIndex ==> r@ == "geometry refers to an index out of range"@),
    {
        match self {
            MeshError::FailedToParseFile(_) => "could not parse the source into a mesh",
            MeshError::UnknownFileType(_) => "did not recognize the model file type",
            MeshError::Other(_) => "encountered a mesh error",
            MeshError::VAO(_) => "encountered a vertex array error",
            MeshError::UnsupportedPrimitive => "only triangle primitives are supported",
            MeshError::InvalidIndex => "geometry refers to an index out of range",
        }
    }
}

/// The draw mode handed to the device: the standard values for triangles
/// and points.
#[derive(Clone, Copy, PartialEq, Eq, Structural, Debug)]
pub enum DrawStyle {
    Triangles,
    Points,
}

impl DrawStyle {
    /// The device's numeric value for the mode.
    pub fn value(&self) -> (r: u32)
        ensures
            (self is Triangles ==> r == 4),
            (self is Points ==> r == 0),
    {
        match self {
            DrawStyle::Triangles => 4,
            DrawStyle::Points => 0,
        }
    }
}

/// A mesh in one of its two states.
pub struct Mesh<State> {
    pub name: String,
    pub data: State,
    pub draw_style: DrawStyle,
}

/// CPU-side geometry, before attachment.
pub struct Unattached {
    pub vertices: Vec<ultraviolet::Vec3>,
    pub normals: Vec<ultraviolet::Vec3>,
    pub st_coordinates: Vec<ultraviolet::Vec2>,
    pub indices: Vec<u32>,
    pub boundaries: Vec<ultraviolet::Vec3>,
}

/// What remains after attachment: the vertex-array model, the instancing
/// handles, the bounds, and the owning program.
pub struct Attached {
    pub vao: VAO,
    pub objects: Vec<InstanceHandle>,
    pub boundaries: Vec<ultraviolet::Vec3>,
    pub program_id: u32,
}

/// One corner of a parsed shape: a vertex index, an optional texture index,
/// and an optional normal index.
pub type RawCorner = (usize, Option<usize>, Option<usize>);

/// A parsed primitive.  Only triangles are supported further.
#[derive(Clone, Copy, PartialEq, Eq, Debug)]
pub enum RawShape {
    Point(RawCorner),
    Line(RawCorner, RawCorner),
    Triangle(RawCorner, RawCorner, RawCorner),
}

/// The vertex/normal index pair a corner contributes, if it names a normal;
/// corners without one are passed over.
pub open spec fn corner_entry(c: RawCorner) -> Seq<(usize, usize)> {
    match c.2 {
        Some(n) => seq![(c.0, n)],
        None => Seq::empty(),
    }
}

/// The index pairs a shape contributes, in corner order.
pub open spec fn shape_corners(s: RawShape) -> Seq<(usize, usize)> {
    match s {
        RawShape::Triangle(a, b, c) => corner_entry(a) + corner_entry(b) + corner_entry(c),
        _ => Seq::empty(),
    }
}

/// All index pairs of a shape list, in order.
pub open spec fn corner_list(shapes: Seq<RawShape>) -> Seq<(usize, usize)>
    decreases shapes.len(),
{
    if shapes.len() == 0 {
        Seq::empty()
    } else {
        corner_list(shapes.drop_last()) + shape_corners(shapes.last())
    }
}

/// An index pair that points outside the source arrays.
pub open spec fn corner_bad(c: (usize, usize), nv: int, nn: int) -> bool {
    c.0 >= nv || c.1 >= nn
}

/// A corner that names a normal but points outside the source arrays.
pub open spec fn triangle_corner_bad(c: RawCorner, nv: int, nn: int) -> bool {
    match c.2 {
        Some(n) => c.0 >= nv || n >= nn,
        None => false,
    }
}

/// What is wrong with one shape, if anything: a non-triangle primitive, or
/// an index out of range.
pub open spec fn shape_problem(s: RawShape, nv: int, nn: int) -> Option<MeshError> {
    match s {
        RawShape::Triangle(a, b, c) => if triangle_corner_bad(a, nv, nn) || triangle_corner_bad(
            b,
            nv,
            nn,
        ) || triangle_corner_bad(c, nv, nn) {
            Some(MeshError::InvalidIndex)
        } else {
            None
        },
        _ => Some(MeshError::UnsupportedPrimitive),
    }
}

/// The first problem in a shape list, if any.
pub open spec fn geometry_problem(shapes: Seq<RawShape>, nv: int, nn: int) -> Option<MeshError>
    decreases shapes.len(),
{
    if shapes.len() == 0 {
        None
    } else if shape_problem(shapes.first(), nv, nn) is Some {
        shape_problem(shapes.first(), nv, nn)
    } else {
        geometry_problem(shapes.drop_first(), nv, nn)
    }
}

proof fn lemma_geometry_problem_skip(shapes: Seq<RawShape>, nv: int, nn: int, i: int)
    requires
        0 <= i <= shapes.len(),
        forall|j: int| 0 <= j < i ==> shape_problem(#[trigger] shapes[j], nv, nn) is None,
    ensures
        geometry_problem(shapes, nv, nn) == geometry_problem(shapes.skip(i), nv, nn),
    decreases i,
{
    if i == 0 {
        assert(shapes.skip(0) =~= shapes);
    } else {
        assert(shapes.first() == shapes[0]);
        assert(shape_problem(shapes[0], nv, nn) is None);
        let rest = shapes.drop_first();
        assert(forall|j: int|
            0 <= j < i - 1 ==> shape_problem(#[trigger] rest[j], nv, nn) is None) by {
            assert(forall|j: int| 0 <= j < i - 1 ==> rest[j] == shapes[j + 1]);
        }
        lemma_geometry_problem_skip(rest, nv, nn, i - 1);
        assert(rest.skip(i - 1) =~= shapes.skip(i));
    }
}

/// The distinct index pairs, in order of first occurrence.
pub open spec fn dedup_pairs(cs: Seq<(usize, usize)>) -> Seq<(usize, usize)>
    decreases cs.len(),
{
    if cs.len() == 0 {
        Seq::empty()
    } else {
        let t = dedup_pairs(cs.drop_last());
        if t.contains(cs.last()) {
            t
        } else {
            t.push(cs.last())
        }
    }
}

/// The element index of each corner: the position of its pair among the
/// distinct pairs.
pub open spec fn dedup_indices(cs: Seq<(usize, usize)>) -> Seq<int>
    decreases cs.len(),
{
    if cs.len() == 0 {
        Seq::empty()
    } else {
        let t = dedup_pairs(cs.drop_last());
        let idx = dedup_indices(cs.drop_last());
        if t.contains(cs.last()) {
            idx.push(t.index_of(cs.last()))
        } else {
            idx.push(t.len() as int)
        }
    }
}

/// The distinct pairs are distinct indeed, and are exactly the pairs that
/// occur.
proof fn lemma_dedup_pairs(cs: Seq<(usize, usize)>)
    ensures
        forall|i: int, j: int|
            0 <= i < dedup_pairs(cs).len() && 0 <= j < dedup_pairs(cs).len() && i != j
                ==> #[trigger] dedup_pairs(cs)[i] != #[trigger] dedup_pairs(cs)[j],
        forall|i: int|
            0 <= i < dedup_pairs(cs).len() ==> cs.contains(#[trigger] dedup_pairs(cs)[i]),
        forall|c: (usize, usize)| cs.contains(c) ==> dedup_pairs(cs).contains(c),
        dedup_pairs(cs).len() <= cs.len(),
    decreases cs.len(),
{
    if cs.len() == 0 {
    } else {
        let rest = cs.drop_last();
        lemma_dedup_pairs(rest);
        let t = dedup_pairs(rest);
        assert(forall|i: int| 0 <= i < t.len() ==> rest.contains(#[trigger] t[i]));
        assert(forall|c: (usize, usize)| rest.contains(c) ==> cs.contains(c)) by {
            assert(forall|i: int| 0 <= i < rest.len() ==> rest[i] == cs[i]);
        }
        assert(cs.contains(cs.last()));
        assert forall|c: (usize, usize)| cs.contains(c) && c != cs.last() implies rest.contains(
            c,
        ) by {
            let w = choose|w: int| 0 <= w < cs.len() && cs[w] == c;
            assert(w < cs.len() - 1);
            assert(rest[w] == c);
        }
        let full = dedup_pairs(cs);
        assert forall|c: (usize, usize)| t.contains(c) implies full.contains(c) by {
            let w = choose|w: int| 0 <= w < t.len() && t[w] == c;
            assert(full[w] == c);
        }
        if !t.contains(cs.last()) {
            assert(full == t.push(cs.last()));
            assert(full[t.len() as int] == cs.last());
            assert(full.contains(cs.last()));
            assert forall|a: int, b: int|
                0 <= a < full.len() && 0 <= b < full.len() && a != b implies #[trigger] full[a]
                != #[trigger] full[b] by {
                if a < t.len() && b < t.len() {
                    assert(t[a] != t[b]);
                } else if a == t.len() as int {
                    assert(full[a] == cs.last() && full[b] == t[b]);
                    assert(!t.contains(cs.last()));
                } else {
                    assert(full[b] == cs.last() && full[a] == t[a]);
                    assert(!t.contains(cs.last()));
                }
            }
        }
        assert forall|w: int| 0 <= w < full.len() implies cs.contains(#[trigger] full[w]) by {
            if t.contains(full[w]) {
                assert(rest.contains(full[w]));
                let q = choose|q: int| 0 <= q < rest.len() && rest[q] == full[w];
                assert(cs[q] == full[w]);
            } else {
                assert(full[w] == cs.last());
            }
        }
    }
}

/// Law: the element index list is exactly as long as the corner list, and
/// every entry points inside the deduplicated vertex list — the element
/// buffer never indexes past the vertex buffers built beside it.
pub proof fn lemma_element_indices_in_range(cs: Seq<(usize, usize)>)
    ensures
        dedup_indices(cs).len() == cs.len(),
        forall|k: int|
            0 <= k < cs.len() ==> 0 <= #[trigger] dedup_indices(cs)[k] < dedup_pairs(
                cs,
            ).len(),
    decreases cs.len(),
{
    if cs.len() == 0 {
    } else {
        let rest = cs.drop_last();
        lemma_element_indices_in_range(rest);
        let t = dedup_pairs(rest);
        let full = dedup_pairs(cs);
        assert(full.len() >= t.len());
        if t.contains(cs.last()) {
            let q = t.index_of(cs.last());
            assert(0 <= q < t.len());
        }
        assert(forall|k: int|
            0 <= k < rest.len() ==> dedup_indices(cs)[k] == #[trigger] dedup_indices(rest)[k]);
    }
}

/// Builds the deduplicated pair list and the element index of every corner.
/// Fails only when the distinct pairs no longer fit the 32-bit element
/// type.
fn dedup_corners(corners: &Vec<(usize, usize)>) -> (r: Result<
    (Vec<(usize, usize)>, Vec<u32>),
    MeshError,
>)
    ensures
        (r is Ok <==> dedup_pairs(corners@).len() <= u32::MAX),
        (r matches Ok(p) ==> p.0@ == dedup_pairs(corners@) && p.1@.len() == dedup_indices(
            corners@,
        ).len() && (forall|k: int|
            0 <= k < p.1@.len() ==> p.1@[k] == dedup_indices(corners@)[k])),
        (r is Err ==> r == Err::<(Vec<(usize, usize)>, Vec<u32>), MeshError>(
            MeshError::VAO(VAOError::VectorLength),
        )),
{
    let n = corners.len();
    let mut pairs: Vec<(usize, usize)> = Vec::new();
    let mut indices: Vec<u32> = Vec::new();
    let mut i: usize = 0;
    while i < n
        invariant
            i <= n,
            n == corners@.len(),
            pairs@ == dedup_pairs(corners@.take(i as int)),
            indices@.len() == dedup_indices(corners@.take(i as int)).len(),
            indices@.len() == i,
            forall|k: int|
                0 <= k < i ==> indices@[k] == dedup_indices(corners@.take(i as int))[k],
            pairs@.len() <= u32::MAX,
        decreases n - i,
    {
        let c = corners[i];
        let ghost prefix = corners@.take(i as int);
        let ghost next = corners@.take(i + 1 as int);
        proof {
            assert(next.drop_last() =~= prefix);
            assert(next.last() == corners@[i as int]);
            lemma_dedup_pairs(prefix);
            assert(forall|k: int|
                0 <= k < i ==> dedup_indices(next)[k] == dedup_indices(prefix)[k]);
        }
        // scan for an earlier occurrence of the pair
        let m = pairs.len();
        let mut j: usize = 0;
        let mut found: Option<usize> = None;
        while j < m
            invariant
                j <= m,
                m == pairs@.len(),
                (found matches Some(p) ==> p < m && pairs@[p as int] == c),
                (found is None ==> forall|k: int| 0 <= k < j ==> pairs@[k] != c),
                (found is Some ==> j == m),
            decreases m - j,
        {
            if pairs[j].0 == c.0 && pairs[j].1 == c.1 {
                found = Some(j);
                j = m;
            } else {
                j += 1;
            }
        }
        match found {
            Some(p) => {
                proof {
                    assert(pairs@.contains(c));
                    let q = pairs@.index_of(c);
                    assert(0 <= q < pairs@.len() && pairs@[q] == c);
                    assert(q == p) by {
                        if q != p {
                            assert(dedup_pairs(prefix)[q] != dedup_pairs(prefix)[p as int]);
                        }
                    }
                    assert(dedup_pairs(next) == pairs@);
                    assert(dedup_indices(next) == dedup_indices(prefix).push(p as int));
                }
                indices.push(p as u32);
            },
            None => {
                proof {
                    assert(forall|k: int| 0 <= k < pairs@.len() ==> pairs@[k] != c);
                    assert(!pairs@.contains(c));
                    assert(dedup_pairs(next) == pairs@.push(c));
                    assert(dedup_indices(next) == dedup_indices(prefix).push(pairs@.len() as int));
                }
                if pairs.len() >= u32::MAX as usize {
                    proof {
                        lemma_dedup_len_grows(corners@, i + 1 as int);
                    }
                    return Err(MeshError::VAO(VAOError::VectorLength));
                }
                indices.push(pairs.len() as u32);
                pairs.push(c);
            },
        }
        i += 1;
    }
    proof {
        assert(corners@.take(n as int) =~= corners@);
    }
    Ok((pairs, indices))
}

/// Once a prefix's distinct pairs pass a bound, the whole list's do.
proof fn lemma_dedup_len_grows(cs: Seq<(usize, usize)>, i: int)
    requires
        0 <= i <= cs.len(),
    ensures
        dedup_pairs(cs.take(i)).len() <= dedup_pairs(cs).len(),
    decreases cs.len() - i,
{
    if i == cs.len() {
        assert(cs.take(i) =~= cs);
    } else {
        lemma_dedup_len_grows(cs, i + 1);
        assert(cs.take(i + 1).drop_last() =~= cs.take(i));
    }
}

/// The smallest bound of a non-empty vertex list, component by component.
pub open spec fn fold_min(vs: Seq<ultraviolet::Vec3>) -> ultraviolet::Vec3
    recommends
        vs.len() > 0,
    decreases vs.len(),
{
    if vs.len() <= 1 {
        vs[0]
    } else {
        vec3_min(fold_min(vs.drop_last()), vs.last())
    }
}

/// The largest bound of a non-empty vertex list, component by component.
pub open spec fn fold_max(vs: Seq<ultraviolet::Vec3>) -> ultraviolet::Vec3
    recommends
        vs.len() > 0,
    decreases vs.len(),
{
    if vs.len() <= 1 {
        vs[0]
    } else {
        vec3_max(fold_max(vs.drop_last()), vs.last())
    }
}

/// The eight corners of the axis-aligned box between two bounds.
pub open spec fn corners_of(lo: ultraviolet::Vec3, hi: ultraviolet::Vec3) -> Seq<
    ultraviolet::Vec3,
> {
    seq![
        vec3_select(lo, hi, lo),
        vec3_select(lo, hi, hi),
        vec3_select(hi, hi, lo),
        vec3_select(hi, hi, hi),
        vec3_select(lo, lo, lo),
        vec3_select(lo, lo, hi),
        vec3_select(hi, lo, lo),
        vec3_select(hi, lo, hi),
    ]
}

/// The eight corners of a vertex list's axis-aligned bounds; all at the
/// origin when the list is empty.
pub fn bounding_corners(vs: &Vec<ultraviolet::Vec3>) -> (r: Vec<ultraviolet::Vec3>)
    ensures
        r@.len() == 8,
        vs@.len() > 0 ==> r@ == corners_of(fold_min(vs@), fold_max(vs@)),
        vs@.len() == 0 ==> forall|i: int| 0 <= i < 8 ==> vec3_is_zero(#[trigger] r@[i]),
{
    if vs.len() == 0 {
        let z = vec3_zero();
        let mut r: Vec<ultraviolet::Vec3> = Vec::new();
        let mut i: usize = 0;
        while i < 8
            invariant
                i <= 8,
                r@.len() == i,
                vec3_is_zero(z),
                forall|k: int| 0 <= k < i ==> vec3_is_zero(#[trigger] r@[k]),
            decreases 8 - i,
        {
            r.push(z);
            i += 1;
        }
        return r;
    }
    let n = vs.len();
    let mut lo = vs[0];
    let mut hi = vs[0];
    let mut i: usize = 1;
    while i < n
        invariant
            1 <= i <= n,
            n == vs@.len(),
            lo == fold_min(vs@.take(i as int)),
            hi == fold_max(vs@.take(i as int)),
        decreases n - i,
    {
        proof {
            let next = vs@.take(i + 1 as int);
            assert(next.drop_last() =~= vs@.take(i as int));
            assert(next.last() == vs@[i as int]);
        }
        lo = vec3_min_by_component(&lo, &vs[i]);
        hi = vec3_max_by_component(&hi, &vs[i]);
        i += 1;
    }
    proof {
        assert(vs@.take(n as int) =~= vs@);
    }
    let mut r: Vec<ultraviolet::Vec3> = Vec::new();
    r.push(vec3_from_components(&lo, &hi, &lo));
    r.push(vec3_from_components(&lo, &hi, &hi));
    r.push(vec3_from_components(&hi, &hi, &lo));
    r.push(vec3_from_components(&hi, &hi, &hi));
    r.push(vec3_from_components(&lo, &lo, &lo));
    r.push(vec3_from_components(&lo, &lo, &hi));
    r.push(vec3_from_components(&hi, &lo, &lo));
    r.push(vec3_from_components(&hi, &lo, &hi));
    proof {
        assert(r@ =~= corners_of(fold_min(vs@), fold_max(vs@)));
    }
    r
}

/// Everything the caller must upload and enable to finish an attachment:
/// the element list, both vertex arrays with their attribute layouts, and
/// the two per-instance attributes with their identity seeds.
pub struct AttachSetup {
    pub index_data: Vec<u32>,
    pub vertex_data: Vec<ultraviolet::Vec3>,
    pub vertex_attr: AttributeSetup,
    pub normal_data: Vec<ultraviolet::Vec3>,
    pub normal_attr: AttributeSetup,
    pub transform_seed: Vec<ultraviolet::Mat4>,
    pub transform_attr: AttributeSetup,
    pub normal_transform_seed: Vec<ultraviolet::Mat3>,
    pub normal_transform_attr: AttributeSetup,
}

/// One frame's instanced, indexed draw of a mesh: the fresh per-instance
/// transform arrays, whether they must be re-uploaded, and the call to
/// issue — none at all when no live instance is enabled.
pub struct DrawPlan {
    pub vao_id: u32,
    pub program_id: u32,
    pub mode: u32,
    pub element_buffer: u32,
    pub element_count: i32,
    pub transforms: Vec<ultraviolet::Mat4>,
    pub normal_transforms: Vec<ultraviolet::Mat3>,
    pub transform_upload: Option<AttributeSetup>,
    pub normal_transform_upload: Option<AttributeSetup>,
    pub instance_count: usize,
    pub issue_draw: bool,
}

impl Mesh<Attached> {
    /// An attached mesh keeps the four attribute bindings its attachment
    /// declared.
    pub open spec fn wf(self) -> bool {
        &&& self.data.vao.wf()
        &&& self.data.vao.attributes_view().contains_key("object_mw_transforms"@)
        &&& self.data.vao.attributes_view().contains_key("object_mw_normal_transforms"@)
    }

    /// Records one more scene object instancing this mesh.
    pub fn add_instance(&mut self, handle: InstanceHandle)
        ensures
            final(self).data.objects@ == old(self).data.objects@.push(handle),
            final(self).data.vao == old(self).data.vao,
            final(self).data.program_id == old(self).data.program_id,
            final(self).data.boundaries == old(self).data.boundaries,
            final(self).name == old(self).name,
            final(self).draw_style == old(self).draw_style,
            old(self).wf() ==> final(self).wf(),
    {
        self.data.objects.push(handle);
    }

    /// Plans this frame's draw: walks the instance handles in order,
    /// skipping dead ones silently, collects the model and normal
    /// transforms of the enabled objects, re-uploads both instance buffers
    /// when more than one instance was collected, and issues one
    /// instanced, indexed draw — or none when no instance is enabled.
    pub fn draw(&self, arena: &ObjectArena) -> (r: DrawPlan)
        requires
            self.wf(),
        ensures
            r.transforms@ == collected_models(*arena, self.data.objects@),
            r.normal_transforms@ == collected_normals(*arena, self.data.objects@),
            r.instance_count == r.transforms@.len(),
            r.issue_draw == (r.instance_count > 0),
            (r.transform_upload is Some <==> r.instance_count > 1),
            (r.normal_transform_upload is Some <==> r.instance_count > 1),
            (r.transform_upload matches Some(s) ==> s.slots@ == slots_of(
                s.attribute.location,
                AttributeKind::Mat4,
                true,
            )),
            (r.normal_transform_upload matches Some(s) ==> s.slots@ == slots_of(
                s.attribute.location,
                AttributeKind::Mat3,
                true,
            )),
            r.vao_id == self.data.vao.id,
            r.program_id == self.data.program_id,
            r.element_buffer == self.data.vao.elements.buffer_id,
            r.element_count == self.data.vao.elements.buffer_length,
            (self.draw_style is Triangles ==> r.mode == 4),
            (self.draw_style is Points ==> r.mode == 0),
    {
        let collected = arena.collect_enabled(&self.data.objects);
        let (transforms, normal_transforms) = collected;
        let instance_count = transforms.len();
        let mut transform_upload: Option<AttributeSetup> = None;
        let mut normal_transform_upload: Option<AttributeSetup> = None;
        if instance_count > 1 {
            let t = match self.data.vao.update_attribute(
                "object_mw_transforms",
                AttributeKind::Mat4,
                true,
            ) {
                Ok(s) => s,
                Err(_) => {
                    return vstd::pervasive::unreached();
                },
            };
            let n = match self.data.vao.update_attribute(
                "object_mw_normal_transforms",
                AttributeKind::Mat3,
                true,
            ) {
                Ok(s) => s,
                Err(_) => {
                    return vstd::pervasive::unreached();
                },
            };
            transform_upload = Some(t);
            normal_transform_upload = Some(n);
        }
        DrawPlan {
            vao_id: self.data.vao.id,
            program_id: self.data.program_id,
            mode: self.draw_style.value(),
            element_buffer: self.data.vao.elements.buffer_id,
            element_count: self.data.vao.elements.buffer_length,
            transforms,
            normal_transforms,
            transform_upload,
            normal_transform_upload,
            instance_count,
            issue_draw: instance_count > 0,
        }
    }
}

impl Mesh<Unattached> {
    /// Builds a mesh from parsed geometry: the shapes must all be
    /// triangles, every used index must be in range, and the vertex/normal
    /// index pairs are deduplicated while the element index list is built.
    /// Corners that name no normal are passed over.
    pub fn from_object_data(
        name: String,
        src_vertices: &Vec<ultraviolet::Vec3>,
        src_normals: &Vec<ultraviolet::Vec3>,
        shapes: &Vec<RawShape>,
    ) -> (r: Result<Mesh<Unattached>, MeshError>)
        ensures
            (r is Ok <==> geometry_problem(shapes@, src_vertices@.len() as int, src_normals@.len() as int)
                is None && dedup_pairs(corner_list(shapes@)).len() <= u32::MAX),
            (r matches Err(e) ==> (geometry_problem(
                shapes@,
                src_vertices@.len() as int,
                src_normals@.len() as int,
            ) matches Some(p) && e == p) || (geometry_problem(
                shapes@,
                src_vertices@.len() as int,
                src_normals@.len() as int,
            ) is None && e == MeshError::VAO(VAOError::VectorLength))),
            (r matches Ok(m) ==> {
                let pairs = dedup_pairs(corner_list(shapes@));
                let idx = dedup_indices(corner_list(shapes@));
                &&& m.name == name
                &&& m.draw_style == DrawStyle::Triangles
                &&& m.data.vertices@ == pairs.map_values(
                    |p: (usize, usize)| src_vertices@[p.0 as int],
                )
                &&& m.data.normals@ == pairs.map_values(
                    |p: (usize, usize)| src_normals@[p.1 as int],
                )
                &&& m.data.st_coordinates@.len() == 0
                &&& m.data.indices@.len() == idx.len()
                &&& (forall|k: int| 0 <= k < idx.len() ==> m.data.indices@[k] == idx[k])
                &&& m.data.boundaries@.len() == 8
                &&& (m.data.vertices@.len() > 0 ==> m.data.boundaries@ == corners_of(
                    fold_min(m.data.vertices@),
                    fold_max(m.data.vertices@),
                ))
                &&& (m.data.vertices@.len() == 0 ==> (forall|k: int|
                    0 <= k < 8 ==> vec3_is_zero(#[trigger] m.data.boundaries@[k])))
            }),
    {
        let ghost nv = src_vertices@.len() as int;
        let ghost nn = src_normals@.len() as int;
        let ns = shapes.len();
        let mut corners: Vec<(usize, usize)> = Vec::new();
        let mut i: usize = 0;
        while i < ns
            invariant
                i <= ns,
                ns == shapes@.len(),
                corners@ == corner_list(shapes@.take(i as int)),
                forall|j: int| 0 <= j < i ==> shape_problem(#[trigger] shapes@[j], nv, nn) is None,
                forall|k: int|
                    0 <= k < corners@.len() ==> !corner_bad(#[trigger] corners@[k], nv, nn),
                nv == src_vertices@.len() as int,
                nn == src_normals@.len() as int,
            decreases ns - i,
        {
            let ghost prefix = shapes@.take(i as int);
            let ghost next = shapes@.take(i + 1 as int);
            proof {
                assert(next.drop_last() =~= prefix);
                assert(next.last() == shapes@[i as int]);
            }
            let shape = shapes[i];
            match shape {
                RawShape::Triangle(a, b, c) => {
                    let bad_a = match a.2 {
                        Some(an) => a.0 >= src_vertices.len() || an >= src_normals.len(),
                        None => false,
                    };
                    let bad_b = match b.2 {
                        Some(bn) => b.0 >= src_vertices.len() || bn >= src_normals.len(),
                        None => false,
                    };
                    let bad_c = match c.2 {
                        Some(cn) => c.0 >= src_vertices.len() || cn >= src_normals.len(),
                        None => false,
                    };
                    if bad_a || bad_b || bad_c {
                        proof {
                            assert(shape_problem(shapes@[i as int], nv, nn) == Some(
                                MeshError::InvalidIndex,
                            ));
                            lemma_geometry_problem_skip(shapes@, nv, nn, i as int);
                            assert(shapes@.skip(i as int).first() == shapes@[i as int]);
                        }
                        return Err(MeshError::InvalidIndex);
                    }
                    proof {
                        assert(shape_problem(shapes@[i as int], nv, nn) is None);
                    }
                    match a.2 {
                        Some(an) => { corners.push((a.0, an)) },
                        None => {},
                    }
                    match b.2 {
                        Some(bn) => { corners.push((b.0, bn)) },
                        None => {},
                    }
                    match c.2 {
                        Some(cn) => { corners.push((c.0, cn)) },
                        None => {},
                    }
                    proof {
                        assert(corners@ =~= corner_list(next));
                    }
                },
                _ => {
                    proof {
                        assert(shape_problem(shapes@[i as int], nv, nn) == Some(
                            MeshError::UnsupportedPrimitive,
                        ));
                        lemma_geometry_problem_skip(shapes@, nv, nn, i as int);
                        assert(shapes@.skip(i as int).first() == shapes@[i as int]);
                    }
                    return Err(MeshError::UnsupportedPrimitive);
                },
            }
            i += 1;
        }
        proof {
            assert(shapes@.take(ns as int) =~= shapes@);
            lemma_geometry_problem_skip(shapes@, nv, nn, ns as int);
        }
        let deduped = dedup_corners(&corners);
        let (pairs, indices) = match deduped {
            Ok(p) => p,
            Err(e) => {
                return Err(e);
            },
        };
        proof {
            lemma_dedup_pairs(corners@);
        }
        let np = pairs.len();
        let mut vertices: Vec<ultraviolet::Vec3> = Vec::new();
        let mut normals: Vec<ultraviolet::Vec3> = Vec::new();
        let mut k: usize = 0;
        while k < np
            invariant
                k <= np,
                np == pairs@.len(),
                pairs@ == dedup_pairs(corners@),
                forall|q: int|
                    0 <= q < pairs@.len() ==> corners@.contains(#[trigger] pairs@[q]),
                forall|q: int|
                    0 <= q < corners@.len() ==> !corner_bad(#[trigger] corners@[q], nv, nn),
                vertices@ == pairs@.take(k as int).map_values(
                    |p: (usize, usize)| src_vertices@[p.0 as int],
                ),
                normals@ == pairs@.take(k as int).map_values(
                    |p: (usize, usize)| src_normals@[p.1 as int],
                ),
                nv == src_vertices@.len() as int,
                nn == src_normals@.len() as int,
            decreases np - k,
        {
            let p = pairs[k];
            proof {
                assert(corners@.contains(pairs@[k as int]));
                let w = choose|w: int| 0 <= w < corners@.len() && corners@[w] == pairs@[k as int];
                assert(!corner_bad(corners@[w], nv, nn));
            }
            vertices.push(src_vertices[p.0]);
            normals.push(src_normals[p.1]);
            proof {
                assert(vertices@ =~= pairs@.take(k + 1 as int).map_values(
                    |p: (usize, usize)| src_vertices@[p.0 as int],
                ));
                assert(normals@ =~= pairs@.take(k + 1 as int).map_values(
                    |p: (usize, usize)| src_normals@[p.1 as int],
                ));
            }
            k += 1;
        }
        proof {
            assert(pairs@.take(np as int) =~= pairs@);
        }
        let boundaries = bounding_corners(&vertices);
        Ok(
            Mesh {
                name,
                draw_style: DrawStyle::Triangles,
                data: Unattached {
                    vertices,
                    normals,
                    st_coordinates: Vec::new(),
                    indices,
                    boundaries,
                },
            },
        )
    }

    /// Attaches the mesh to a linked program: the element list and both
    /// vertex arrays go up, and the four attributes are declared — the
    /// per-vertex positions and normals, and the two per-instance
    /// transform attributes, each seeded with one identity entry so the
    /// mesh is immediately drawable with no instances.  The whole
    /// attachment is atomic: if any declared name is absent from the
    /// shader, `AttributeNotFound` comes back and nothing is built.
    pub fn attach(self, program_id: u32, vao_id: u32, interface: &ShaderInterface) -> (r: Result<
        (Mesh<Attached>, AttachSetup),
        MeshError,
    >)
        requires
            interface.wf(),
        ensures
            (r is Ok <==> self.data.indices@.len() <= i32::MAX
                && interface.attributes_view().contains_key("vertices"@)
                && interface.attributes_view().contains_key("normals"@)
                && interface.attributes_view().contains_key("object_mw_transforms"@)
                && interface.attributes_view().contains_key("object_mw_normal_transforms"@)),
            (self.data.indices@.len() > i32::MAX ==> r == Err::<
                (Mesh<Attached>, AttachSetup),
                MeshError,
            >(MeshError::VAO(VAOError::VectorLength))),
            (self.data.indices@.len() <= i32::MAX && !interface.attributes_view().contains_key(
                "vertices"@,
            ) ==> (r matches Err(e) && (e matches MeshError::VAO(v) && (v matches
            VAOError::AttributeNotFound(n) && n@ == "vertices"@)))),
            (self.data.indices@.len() <= i32::MAX && interface.attributes_view().contains_key(
                "vertices"@,
            ) && !interface.attributes_view().contains_key("normals"@) ==> (r matches Err(e) && (
            e matches MeshError::VAO(v) && (v matches VAOError::AttributeNotFound(n) && n@
                == "normals"@)))),
            (self.data.indices@.len() <= i32::MAX && interface.attributes_view().contains_key(
                "vertices"@,
            ) && interface.attributes_view().contains_key("normals"@)
                && !interface.attributes_view().contains_key("object_mw_transforms"@) ==> (
            r matches Err(e) && (e matches MeshError::VAO(v) && (v matches
            VAOError::AttributeNotFound(n) && n@ == "object_mw_transforms"@)))),
            (self.data.indices@.len() <= i32::MAX && interface.attributes_view().contains_key(
                "vertices"@,
            ) && interface.attributes_view().contains_key("normals"@)
                && interface.attributes_view().contains_key("object_mw_transforms"@)
                && !interface.attributes_view().contains_key("object_mw_normal_transforms"@) ==> (
            r matches Err(e) && (e matches MeshError::VAO(v) && (v matches
            VAOError::AttributeNotFound(n) && n@ == "object_mw_normal_transforms"@)))),
            (r matches Ok(p) ==> {
                &&& p.0.wf()
                &&& p.0.name == self.name
                &&& p.0.draw_style == self.draw_style
                &&& p.0.data.program_id == program_id
                &&& p.0.data.vao.id == vao_id
                &&& p.0.data.vao.program_id == program_id
                &&& p.0.data.vao.attributes_view().dom() == set![
                    "vertices"@,
                    "normals"@,
                    "object_mw_transforms"@,
                    "object_mw_normal_transforms"@,
                ]
                &&& p.0.data.objects@ == Seq::<InstanceHandle>::empty()
                &&& p.0.data.boundaries == self.data.boundaries
                &&& p.0.data.vao.elements.buffer_length == self.data.indices@.len() as i32
                &&& p.1.index_data == self.data.indices
                &&& p.1.vertex_data == self.data.vertices
                &&& p.1.normal_data == self.data.normals
                &&& p.1.vertex_attr.attribute.location == interface.attributes_view()["vertices"@]
                &&& p.1.vertex_attr.slots@ == slots_of(
                    p.1.vertex_attr.attribute.location,
                    AttributeKind::Vec3,
                    false,
                )
                &&& p.1.normal_attr.attribute.location == interface.attributes_view()["normals"@]
                &&& p.1.normal_attr.slots@ == slots_of(
                    p.1.normal_attr.attribute.location,
                    AttributeKind::Vec3,
                    false,
                )
                &&& p.1.transform_attr.attribute.location
                    == interface.attributes_view()["object_mw_transforms"@]
                &&& p.1.transform_attr.slots@ == slots_of(
                    p.1.transform_attr.attribute.location,
                    AttributeKind::Mat4,
                    true,
                )
                &&& p.1.normal_transform_attr.attribute.location
                    == interface.attributes_view()["object_mw_normal_transforms"@]
                &&& p.1.normal_transform_attr.slots@ == slots_of(
                    p.1.normal_transform_attr.attribute.location,
                    AttributeKind::Mat3,
                    true,
                )
                &&& p.1.transform_seed@.len() == 1
                &&& mat4_is_identity(p.1.transform_seed@[0])
                &&& p.1.normal_transform_seed@.len() == 1
                &&& mat3_is_identity(p.1.normal_transform_seed@[0])
            }),
    {
        let Mesh { name, data, draw_style } = self;
        let mut vao = match VAO::new(program_id, vao_id, &data.indices) {
            Ok(v) => v,
            Err(e) => {
                return Err(MeshError::VAO(e));
            },
        };
        // the whole attachment is atomic: every declared name must be
        // active before anything is bound
        if interface.attribute("vertices").is_none() {
            return Err(MeshError::VAO(VAOError::AttributeNotFound("vertices".to_owned())));
        }
        if interface.attribute("normals").is_none() {
            return Err(MeshError::VAO(VAOError::AttributeNotFound("normals".to_owned())));
        }
        if interface.attribute("object_mw_transforms").is_none() {
            return Err(
                MeshError::VAO(VAOError::AttributeNotFound("object_mw_transforms".to_owned())),
            );
        }
        if interface.attribute("object_mw_normal_transforms").is_none() {
            return Err(
                MeshError::VAO(
                    VAOError::AttributeNotFound("object_mw_normal_transforms".to_owned()),
                ),
            );
        }
        let vertex_attr = match vao.add_attribute(interface, "vertices", AttributeKind::Vec3, false) {
            Ok(s) => s,
            Err(_) => {
                return vstd::pervasive::unreached();
            },
        };
        let normal_attr = match vao.add_attribute(interface, "normals", AttributeKind::Vec3, false) {
            Ok(s) => s,
            Err(_) => {
                return vstd::pervasive::unreached();
            },
        };
        let transform_attr = match vao.add_attribute(
            interface,
            "object_mw_transforms",
            AttributeKind::Mat4,
            true,
        ) {
            Ok(s) => s,
            Err(_) => {
                return vstd::pervasive::unreached();
            },
        };
        let normal_transform_attr = match vao.add_attribute(
            interface,
            "object_mw_normal_transforms",
            AttributeKind::Mat3,
            true,
        ) {
            Ok(s) => s,
            Err(_) => {
                return vstd::pervasive::unreached();
            },
        };
        let mut transform_seed: Vec<ultraviolet::Mat4> = Vec::new();
        transform_seed.push(mat4_identity());
        let mut normal_transform_seed: Vec<ultraviolet::Mat3> = Vec::new();
        normal_transform_seed.push(mat3_identity());
        let setup = AttachSetup {
            index_data: data.indices,
            vertex_data: data.vertices,
            vertex_attr,
            normal_data: data.normals,
            normal_attr,
            transform_seed,
            transform_attr,
            normal_transform_seed,
            normal_transform_attr,
        };
        proof {
            assert(vao.attributes_view().dom() =~= set![
                "vertices"@,
                "normals"@,
                "object_mw_transforms"@,
                "object_mw_normal_transforms"@,
            ]);
        }
        let attached = Mesh {
            name,
            draw_style,
            data: Attached {
                vao,
                objects: Vec::new(),
                boundaries: data.boundaries,
                program_id,
            },
        };
        Ok((attached, setup))
    }

    /// Updates the draw style for later draws.
    pub fn set_draw_style(&mut self, draw_style: DrawStyle)
        ensures
            final(self).draw_style == draw_style,
            final(self).name == old(self).name,
            final(self).data == old(self).data,
    {
        self.draw_style = draw_style;
    }
}

} // verus!
