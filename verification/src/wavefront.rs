//! Wavefront model text, parsed by the `wavefront_obj` crate.  The parse
//! and the walk of its tree stay behind trusted conversions that hand the
//! library plain values: converted vertex and normal lists, and each
//! primitive's corner indices.  Everything decided from them — triangle
//! checks, index validation, deduplication — is verified in the mesh
//! module.
use vstd::prelude::*;

use crate::geom::vec3_is_zero;
use crate::mesh::corner_list;
use crate::mesh::corners_of;
use crate::mesh::dedup_pairs;
use crate::mesh::fold_max;
use crate::mesh::fold_min;
use crate::mesh::geometry_problem;
use crate::mesh::Mesh;
use crate::mesh::MeshError;
use crate::mesh::RawShape;
use crate::mesh::Unattached;

verus! {

#[verifier::external_type_specification]
#[verifier::external_body]
pub struct ExObjSet(wavefront_obj::obj::ObjSet);

#[verifier::external_type_specification]
#[verifier::external_body]
pub struct ExObject(wavefront_obj::obj::Object);

#[verifier::external_type_specification]
#[verifier::external_body]
pub struct ExParseError(wavefront_obj::ParseError);

/// What `wavefront_obj::obj::parse` returns for a text: a function of the
/// text alone.
pub uninterp spec fn obj_parse(s: Seq<char>) -> Result<
    wavefront_obj::obj::ObjSet,
    wavefront_obj::ParseError,
>;

/// The objects a parsed set holds, in order.
pub uninterp spec fn objects_of(s: wavefront_obj::obj::ObjSet) -> Seq<wavefront_obj::obj::Object>;

/// An object's name.
pub uninterp spec fn obj_name(o: wavefront_obj::obj::Object) -> Seq<char>;

/// An object's vertex positions, each converted to single precision.
pub uninterp spec fn obj_vertices(o: wavefront_obj::obj::Object) -> Seq<ultraviolet::Vec3>;

/// An object's normals, each converted to single precision.
pub uninterp spec fn obj_normals(o: wavefront_obj::obj::Object) -> Seq<ultraviolet::Vec3>;

/// An object's primitives with their corner indices, every geometry's
/// shapes in order.
pub uninterp spec fn obj_shapes(o: wavefront_obj::obj::Object) -> Seq<RawShape>;

/// Relies on `wavefront_obj::obj::parse`.
#[verifier::external_body]
fn parse_obj_set(text: &str) -> (r: Result<wavefront_obj::obj::ObjSet, wavefront_obj::ParseError>)
    ensures
        r == obj_parse(text@),
{
    wavefront_obj::obj::parse(text)
}

/// Relies on the `objects` field of `wavefront_obj::obj::ObjSet`.
#[verifier::external_body]
fn obj_set_objects(s: wavefront_obj::obj::ObjSet) -> (r: Vec<wavefront_obj::obj::Object>)
    ensures
        r@ == objects_of(s),
{
    s.objects
}

/// Relies on the `name` field of `wavefront_obj::obj::Object`.
#[verifier::external_body]
fn object_name(o: &wavefront_obj::obj::Object) -> (r: String)
    ensures
        r@ == obj_name(*o),
{
    o.name.clone()
}

/// Relies on the `vertices` field of `wavefront_obj::obj::Object`, each
/// entry narrowed to single precision.
#[verifier::external_body]
fn object_vertices(o: &wavefront_obj::obj::Object) -> (r: Vec<ultraviolet::Vec3>)
    ensures
        r@ == obj_vertices(*o),
{
    o.vertices.iter().map(
        |v| ultraviolet::Vec3::new(v.x as _, v.y as _, v.z as _),
    ).collect()
}

/// Relies on the `normals` field of `wavefront_obj::obj::Object`, each
/// entry narrowed to single precision.
#[verifier::external_body]
fn object_normals(o: &wavefront_obj::obj::Object) -> (r: Vec<ultraviolet::Vec3>)
    ensures
        r@ == obj_normals(*o),
{
    o.normals.iter().map(
        |v| ultraviolet::Vec3::new(v.x as _, v.y as _, v.z as _),
    ).collect()
}

/// Relies on the `geometry` field of `wavefront_obj::obj::Object` and the
/// shape of `wavefront_obj::obj::Primitive`: every geometry's shapes in
/// order, one arm per primitive kind, indices moved as they stand.
#[verifier::external_body]
fn object_shapes(o: &wavefront_obj::obj::Object) -> (r: Vec<RawShape>)
    ensures
        r@ == obj_shapes(*o),
{
    o.geometry.iter().flat_map(|g| g.shapes.iter()).map(
        |s| match s.primitive {
            wavefront_obj::obj::Primitive::Point(a) => RawShape::Point(a),
            wavefront_obj::obj::Primitive::Line(a, b) => RawShape::Line(a, b),
            wavefront_obj::obj::Primitive::Triangle(a, b, c) => RawShape::Triangle(a, b, c),
        },
    ).collect()
}

/// Relies on the public `message` and `line_number` fields of
/// `wavefront_obj::ParseError`.
#[verifier::external_body]
fn parse_error_message(e: &wavefront_obj::ParseError) -> (r: String) {
    e.message.clone()
}

impl Mesh<Unattached> {
    /// Parses Wavefront model text into a mesh: the text must parse, hold
    /// at least one object, and describe triangle-only geometry whose
    /// indices are in range.  The first object is taken, its vertex and
    /// normal index pairs deduplicated into the element list.
    pub fn parse(text: &str) -> (r: Result<Mesh<Unattached>, MeshError>)
        ensures
            (obj_parse(text@) is Err ==> (r matches Err(e) && e is FailedToParseFile)),
            (r is Ok ==> obj_parse(text@) is Ok && objects_of(obj_parse(text@).unwrap()).len()
                > 0),
            (r matches Ok(m) ==> {
                let o = objects_of(obj_parse(text@).unwrap())[0];
                &&& m.name@ == obj_name(o)
                &&& geometry_problem(
                    obj_shapes(o),
                    obj_vertices(o).len() as int,
                    obj_normals(o).len() as int,
                ) is None
                &&& m.data.vertices@ == dedup_pairs(corner_list(obj_shapes(o))).map_values(
                    |p: (usize, usize)| obj_vertices(o)[p.0 as int],
                )
                &&& m.data.normals@ == dedup_pairs(corner_list(obj_shapes(o))).map_values(
                    |p: (usize, usize)| obj_normals(o)[p.1 as int],
                )
                &&& m.data.boundaries@.len() == 8
                &&& (m.data.vertices@.len() > 0 ==> m.data.boundaries@ == corners_of(
                    fold_min(m.data.vertices@),
                    fold_max(m.data.vertices@),
                ))
                &&& (m.data.vertices@.len() == 0 ==> (forall|k: int|
                    0 <= k < 8 ==> vec3_is_zero(#[trigger] m.data.boundaries@[k])))
            }),
            (obj_parse(text@) matches Ok(s) ==> (objects_of(s).len() > 0 ==> {
                let o = objects_of(s)[0];
                r is Ok <==> geometry_problem(
                    obj_shapes(o),
                    obj_vertices(o).len() as int,
                    obj_normals(o).len() as int,
                ) is None && dedup_pairs(corner_list(obj_shapes(o))).len() <= u32::MAX
            })),
    {
        let set = match parse_obj_set(text) {
            Ok(s) => s,
            Err(e) => {
                return Err(MeshError::FailedToParseFile(parse_error_message(&e)));
            },
        };
        let mut objects = obj_set_objects(set);
        if objects.len() == 0 {
            return Err(MeshError::FailedToParseFile("the file holds no objects".to_owned()));
        }
        let object = objects.remove(0);
        let name = object_name(&object);
        let vertices = object_vertices(&object);
        let normals = object_normals(&object);
        let shapes = object_shapes(&object);
        Mesh::from_object_data(name, &vertices, &normals, &shapes)
    }
}

} // verus!
