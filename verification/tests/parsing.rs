//! Model parsing: deduplication of vertex/normal index pairs, the
//! triangle-only rule, range checks, bounds, and the frame-state
//! translation of window inputs.
use glscene::camera::{CameraEvent, Direction};
use glscene::load::mesh_format_supported;
use glscene::mesh::{bounding_corners, Mesh, MeshError, RawShape};
use glscene::shader::{Shader, ShaderError, ShaderPipeline, StageKind};
use glscene::window::{FrameState, InputEvent};

const CUBE_FACE: &str = "o face\n\
v 0.0 0.0 0.0\n\
v 1.0 0.0 0.0\n\
v 1.0 1.0 0.0\n\
v 0.0 1.0 0.0\n\
vn 0.0 0.0 1.0\n\
f 1//1 2//1 3//1\n\
f 1//1 3//1 4//1\n";

#[test]
fn parsing_dedups_shared_corners() {
    let mesh = Mesh::parse(CUBE_FACE).unwrap();
    assert_eq!(mesh.name, "face");
    // two triangles share two corners; four distinct vertex/normal pairs
    // remain, and the six element entries reuse their indices
    assert_eq!(mesh.data.vertices.len(), 4);
    assert_eq!(mesh.data.normals.len(), 4);
    assert_eq!(mesh.data.indices.len(), 6);
    for i in &mesh.data.indices {
        assert!((*i as usize) < mesh.data.vertices.len());
    }
    // the two triangles cover the square's four corners, sharing the
    // diagonal's two
    let corner = |i: usize| {
        let v = mesh.data.vertices[mesh.data.indices[i] as usize];
        (v.x as i32, v.y as i32, v.z as i32)
    };
    let mut first: Vec<(i32, i32, i32)> = (0..3).map(corner).collect();
    let mut second: Vec<(i32, i32, i32)> = (3..6).map(corner).collect();
    first.sort();
    second.sort();
    let mut shared: Vec<(i32, i32, i32)> =
        first.iter().filter(|c| second.contains(c)).cloned().collect();
    shared.sort();
    assert_eq!(shared.len(), 2);
    let mut all = first.clone();
    all.extend(second.iter().cloned());
    all.sort();
    all.dedup();
    assert_eq!(
        all,
        vec![(0, 0, 0), (0, 1, 0), (1, 0, 0), (1, 1, 0)]
    );
    assert!(mesh.data.st_coordinates.is_empty());
    assert_eq!(mesh.data.boundaries.len(), 8);
}

#[test]
fn parse_failure_is_reported() {
    let r = Mesh::parse("v 1.0 nonsense\n");
    assert!(matches!(r, Err(MeshError::FailedToParseFile(_))));
}

#[test]
fn non_triangle_primitives_are_refused() {
    let vertices = vec![
        ultraviolet::Vec3::new(0.0, 0.0, 0.0),
        ultraviolet::Vec3::new(1.0, 0.0, 0.0),
    ];
    let normals = vec![ultraviolet::Vec3::new(0.0, 0.0, 1.0)];
    let shapes = vec![RawShape::Line((0, None, Some(0)), (1, None, Some(0)))];
    let r = Mesh::from_object_data("m".to_string(), &vertices, &normals, &shapes);
    assert!(matches!(r, Err(MeshError::UnsupportedPrimitive)));
}

#[test]
fn out_of_range_indices_are_refused() {
    let vertices = vec![ultraviolet::Vec3::new(0.0, 0.0, 0.0)];
    let normals = vec![ultraviolet::Vec3::new(0.0, 0.0, 1.0)];
    let shapes = vec![RawShape::Triangle(
        (0, None, Some(0)),
        (5, None, Some(0)),
        (0, None, Some(0)),
    )];
    let r = Mesh::from_object_data("m".to_string(), &vertices, &normals, &shapes);
    assert!(matches!(r, Err(MeshError::InvalidIndex)));
}

#[test]
fn corners_without_normals_are_passed_over() {
    let vertices = vec![
        ultraviolet::Vec3::new(0.0, 0.0, 0.0),
        ultraviolet::Vec3::new(1.0, 0.0, 0.0),
        ultraviolet::Vec3::new(0.0, 1.0, 0.0),
    ];
    let normals = vec![ultraviolet::Vec3::new(0.0, 0.0, 1.0)];
    let shapes = vec![RawShape::Triangle(
        (0, None, Some(0)),
        (1, None, None),
        (2, None, Some(0)),
    )];
    let mesh = Mesh::from_object_data("m".to_string(), &vertices, &normals, &shapes).unwrap();
    assert_eq!(mesh.data.vertices.len(), 2);
    assert_eq!(mesh.data.indices, vec![0, 1]);
}

#[test]
fn bounding_corners_span_the_extremes() {
    let vs = vec![
        ultraviolet::Vec3::new(1.0, 2.0, 3.0),
        ultraviolet::Vec3::new(-1.0, 0.0, 5.0),
    ];
    let corners = bounding_corners(&vs);
    assert_eq!(corners.len(), 8);
    let xs: Vec<f32> = corners.iter().map(|c| c.x).collect();
    let ys: Vec<f32> = corners.iter().map(|c| c.y).collect();
    let zs: Vec<f32> = corners.iter().map(|c| c.z).collect();
    assert!(xs.contains(&-1.0) && xs.contains(&1.0));
    assert!(ys.contains(&0.0) && ys.contains(&2.0));
    assert!(zs.contains(&3.0) && zs.contains(&5.0));
    for c in &corners {
        assert!((-1.0..=1.0).contains(&c.x));
        assert!((0.0..=2.0).contains(&c.y));
        assert!((3.0..=5.0).contains(&c.z));
    }
}

#[test]
fn only_the_wavefront_format_is_supported() {
    assert!(mesh_format_supported("obj"));
    assert!(!mesh_format_supported("fbx"));
    assert!(!mesh_format_supported(""));
}

#[test]
fn frame_inputs_translate_to_camera_events() {
    let mut frame = FrameState::new(0);
    frame.begin_frame(16, (0, 0));
    assert_eq!(frame.delta_t_milli, 16);
    frame.process_event(InputEvent::KeyRotateUp, (0, 0));
    frame.process_event(InputEvent::KeyRotateLeft, (0, 0));
    frame.process_event(InputEvent::ScrollUp, (0, 0));
    frame.process_event(InputEvent::KeyProjectionSwap, (0, 0));
    frame.process_event(
        InputEvent::FramebufferSize { width: 800, height: 400, aspect_milli: 2_000 },
        (0, 0),
    );
    let events = frame.take_camera_events();
    assert!(matches!(events[0], CameraEvent::Rotation(Direction::Up)));
    assert!(matches!(
        events[1],
        CameraEvent::Rotation(Direction::Left(16))
    ));
    assert!(matches!(
        events[2],
        CameraEvent::Movement(Direction::Forwards(16))
    ));
    assert!(matches!(events[3], CameraEvent::SwapProjection));
    assert!(matches!(
        events[4],
        CameraEvent::ProjectionAspectRatio(2_000)
    ));
    assert_eq!(frame.resolution, Some((800, 400)));
    assert!(!frame.should_close());
    frame.process_event(InputEvent::KeyEscape, (0, 0));
    assert!(frame.should_close());
}

#[test]
fn middle_mouse_drag_emits_rotation_vectors() {
    let mut frame = FrameState::new(0);
    frame.process_event(InputEvent::MiddlePress { shift: false }, (100, 200));
    frame.begin_frame(16, (130, 160));
    let events = frame.take_camera_events();
    assert_eq!(events.len(), 1);
    assert!(matches!(
        events[0],
        CameraEvent::Rotation(Direction::Vector(30, -40, 0))
    ));
    frame.process_event(InputEvent::MiddleRelease { shift: false }, (130, 160));
    frame.begin_frame(32, (500, 500));
    assert!(frame.take_camera_events().is_empty());
}

#[test]
fn error_descriptions_name_their_condition() {
    assert_eq!(
        MeshError::UnsupportedPrimitive.message(),
        "only triangle primitives are supported"
    );
    let e = glscene::program::ProgramError::TooManyLights;
    assert_eq!(e.message(), "the light array is full");
    let g = glscene::GLError::from(glscene::program::ProgramError::TooManyLights);
    assert_eq!(g.message(), "program error");
}

#[test]
fn shader_pipeline_requires_both_mandatory_stages() {
    let r = ShaderPipeline::from_stages(None, None, None, None);
    assert!(matches!(r, Err(ShaderError::MissingStage(StageKind::Vertex))));
    let vs = Shader::from_compiled(11);
    let r = ShaderPipeline::from_stages(Some(vs), None, None, None);
    assert!(matches!(
        r,
        Err(ShaderError::MissingStage(StageKind::Fragment))
    ));
    let vs = Shader::from_compiled(11);
    let fs = Shader::from_compiled(12);
    let p = ShaderPipeline::from_stages(Some(vs), Some(fs), None, None).unwrap();
    assert_eq!(p.stage_ids(), vec![11, 12]);
}

#[test]
fn dedup_reuses_first_occurrence_indices() {
    // two triangles sharing two vertex/normal pairs: the shared pairs keep
    // the indices of their first occurrence, in order
    let vertices = vec![
        ultraviolet::Vec3::new(0.0, 0.0, 0.0),
        ultraviolet::Vec3::new(1.0, 0.0, 0.0),
        ultraviolet::Vec3::new(1.0, 1.0, 0.0),
        ultraviolet::Vec3::new(0.0, 1.0, 0.0),
    ];
    let normals = vec![ultraviolet::Vec3::new(0.0, 0.0, 1.0)];
    let shapes = vec![
        RawShape::Triangle((0, None, Some(0)), (1, None, Some(0)), (2, None, Some(0))),
        RawShape::Triangle((0, None, Some(0)), (2, None, Some(0)), (3, None, Some(0))),
    ];
    let mesh = Mesh::from_object_data("square".to_string(), &vertices, &normals, &shapes).unwrap();
    assert_eq!(mesh.data.indices, vec![0, 1, 2, 0, 2, 3]);
    assert_eq!(mesh.data.vertices.len(), 4);
    assert_eq!(mesh.data.vertices[3], vertices[3]);
    // the same pair seen through a different normal is a new vertex
    let normals2 = vec![
        ultraviolet::Vec3::new(0.0, 0.0, 1.0),
        ultraviolet::Vec3::new(0.0, 1.0, 0.0),
    ];
    let shapes2 = vec![
        RawShape::Triangle((0, None, Some(0)), (1, None, Some(0)), (2, None, Some(0))),
        RawShape::Triangle((0, None, Some(1)), (2, None, Some(0)), (3, None, Some(0))),
    ];
    let mesh = Mesh::from_object_data("square".to_string(), &vertices, &normals2, &shapes2).unwrap();
    assert_eq!(mesh.data.indices, vec![0, 1, 2, 3, 2, 4]);
    assert_eq!(mesh.data.vertices.len(), 5);
}
