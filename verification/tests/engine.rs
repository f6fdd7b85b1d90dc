//! End-to-end checks of the scene engine: attaching meshes, instancing
//! them, toggling and removing instances, lights, uniforms, and the draw
//! plans a frame produces.
use glscene::camera::CameraAction;
use glscene::lights::{LightColor, Position};
use glscene::mesh::{Mesh, RawShape};
use glscene::program::{GLProgram, ProgramError, MAX_LIGHTS};
use glscene::shader::ShaderInterface;
use glscene::uniform::UniformValue;

fn full_interface() -> ShaderInterface {
    let mut iface = ShaderInterface::new();
    assert!(iface.add_attribute("vertices".to_string(), 0));
    assert!(iface.add_attribute("normals".to_string(), 1));
    assert!(iface.add_attribute("object_mw_transforms".to_string(), 2));
    assert!(iface.add_attribute("object_mw_normal_transforms".to_string(), 6));
    iface.add_uniform("ambient_light_color".to_string(), 10);
    iface.add_uniform("view_projection_matrix".to_string(), 11);
    iface.add_uniform("camera_position".to_string(), 12);
    iface.add_uniform("num_lights".to_string(), 13);
    iface.add_block("Lights".to_string(), 3);
    iface
}

fn triangle_mesh(name: &str) -> Mesh<glscene::mesh::Unattached> {
    let vertices = vec![
        ultraviolet::Vec3::new(0.0, 0.0, 0.0),
        ultraviolet::Vec3::new(1.0, 0.0, 0.0),
        ultraviolet::Vec3::new(0.0, 1.0, 0.0),
    ];
    let normals = vec![ultraviolet::Vec3::new(0.0, 0.0, 1.0)];
    let shapes = vec![RawShape::Triangle(
        (0, None, Some(0)),
        (1, None, Some(0)),
        (2, None, Some(0)),
    )];
    Mesh::from_object_data(name.to_string(), &vertices, &normals, &shapes).unwrap()
}

fn program_with_mesh() -> GLProgram<glscene::program::BlinnPhong> {
    let (mut program, _camera_setup) = GLProgram::new_blinn_phong(7, full_interface());
    let mesh = triangle_mesh("triangle");
    program.attach_mesh(mesh, 42).unwrap();
    program
}

#[test]
fn draw_collects_only_enabled_instances_in_order() {
    let mut program = program_with_mesh();
    let t1 = ultraviolet::Mat4::from_translation(ultraviolet::Vec3::new(1.0, 0.0, 0.0));
    let t2 = ultraviolet::Mat4::from_translation(ultraviolet::Vec3::new(2.0, 0.0, 0.0));
    let t3 = ultraviolet::Mat4::from_translation(ultraviolet::Vec3::new(3.0, 0.0, 0.0));
    program.create_object("a", "triangle", t1).unwrap();
    program.create_object("b", "triangle", t2).unwrap();
    program.create_object("c", "triangle", t3).unwrap();

    let frame = program.draw().unwrap();
    assert_eq!(frame.plans.len(), 1);
    let plan = &frame.plans[0];
    assert_eq!(plan.instance_count, 3);
    assert!(plan.issue_draw);
    assert_eq!(plan.transforms, vec![t1, t2, t3]);

    // toggling one object's flag changes the count by exactly one, and
    // keeps the others' relative order
    program.set_enabled("b", false).unwrap();
    let frame = program.draw().unwrap();
    let plan = &frame.plans[0];
    assert_eq!(plan.instance_count, 2);
    assert_eq!(plan.transforms, vec![t1, t3]);

    program.set_enabled("b", true).unwrap();
    let frame = program.draw().unwrap();
    assert_eq!(frame.plans[0].instance_count, 3);
}

#[test]
fn removed_object_is_skipped_without_error() {
    let mut program = program_with_mesh();
    let t1 = ultraviolet::Mat4::from_translation(ultraviolet::Vec3::new(1.0, 0.0, 0.0));
    let t2 = ultraviolet::Mat4::from_translation(ultraviolet::Vec3::new(2.0, 0.0, 0.0));
    program.create_object("a", "triangle", t1).unwrap();
    program.create_object("b", "triangle", t2).unwrap();

    program.remove_object("a").unwrap();
    let frame = program.draw().unwrap();
    let plan = &frame.plans[0];
    assert_eq!(plan.instance_count, 1);
    assert_eq!(plan.transforms, vec![t2]);

    // removing every instance skips the draw call entirely
    program.remove_object("b").unwrap();
    let frame = program.draw().unwrap();
    assert_eq!(frame.plans[0].instance_count, 0);
    assert!(!frame.plans[0].issue_draw);
}

#[test]
fn reused_object_name_replaces_the_old_instance() {
    let mut program = program_with_mesh();
    let t1 = ultraviolet::Mat4::from_translation(ultraviolet::Vec3::new(1.0, 0.0, 0.0));
    let t2 = ultraviolet::Mat4::from_translation(ultraviolet::Vec3::new(2.0, 0.0, 0.0));
    program.create_object("a", "triangle", t1).unwrap();
    program.create_object("a", "triangle", t2).unwrap();
    let frame = program.draw().unwrap();
    // the first instance's handle is dead; only the replacement draws
    assert_eq!(frame.plans[0].instance_count, 1);
    assert_eq!(frame.plans[0].transforms, vec![t2]);
}

#[test]
fn create_object_for_unknown_mesh_fails() {
    let mut program = program_with_mesh();
    let r = program.create_object("a", "nonesuch", ultraviolet::Mat4::identity());
    assert!(matches!(r, Err(ProgramError::MeshNotFound(_))));
}

#[test]
fn normal_transform_is_transpose_of_inverse_upper_block() {
    // a rotation about the z axis combined with a non-uniform scale
    let angle = 0.5f32;
    let rotation = ultraviolet::Mat4::from_rotation_z(angle);
    let scale = ultraviolet::Mat4::from_nonuniform_scale(ultraviolet::Vec3::new(2.0, 3.0, 4.0));
    let m = rotation * scale;
    let mut program = program_with_mesh();
    program.create_object("a", "triangle", m).unwrap();
    let frame = program.draw().unwrap();
    let got = frame.plans[0].normal_transforms[0];

    // hand-computed: transpose(inverse(upper3x3)) of R*S is R * S^-1
    let (s, c) = angle.sin_cos();
    let expected = [
        [c / 2.0, s / 2.0, 0.0],
        [-s / 3.0, c / 3.0, 0.0],
        [0.0, 0.0, 1.0 / 4.0],
    ];
    for col in 0..3 {
        let g = got.cols[col];
        for row in 0..3 {
            let gv = [g.x, g.y, g.z][row];
            assert!(
                (gv - expected[col][row]).abs() < 1e-5,
                "column {} row {}: got {}, expected {}",
                col,
                row,
                gv,
                expected[col][row]
            );
        }
    }
}

#[test]
fn add_light_counts_and_buffer_length() {
    let mut program = program_with_mesh();
    program.initialize().unwrap();
    let color = LightColor::new(ultraviolet::Vec4::new(1.0, 0.0, 0.0, 1.0));
    for n in 1..=3u32 {
        let p = Position::new(ultraviolet::Vec3::new(0.0, 0.0, n as f32));
        let up = program.add_light(&p, &color).unwrap();
        match up.num_lights.value {
            UniformValue::U32(v) => assert_eq!(v, n),
            _ => panic!("light count must be an unsigned integer"),
        }
        assert_eq!(up.buffer_bytes.len(), 32 * n as usize);
        assert_eq!(up.block.binding_point, 1);
        assert_eq!(up.block.block_index, 3);
    }
}

#[test]
fn light_buffer_bytes_hold_the_packed_vectors() {
    let mut program = program_with_mesh();
    program.initialize().unwrap();
    let color = LightColor::new(ultraviolet::Vec4::new(0.25, 0.5, 0.75, 1.0));
    let p = Position::new(ultraviolet::Vec3::new(1.0, 2.0, 3.0));
    let up = program.add_light(&p, &color).unwrap();
    let mut expected = Vec::new();
    for v in [0.25f32, 0.5, 0.75, 1.0, 1.0, 2.0, 3.0, 1.0] {
        expected.extend_from_slice(&v.to_bits().to_le_bytes());
    }
    assert_eq!(up.buffer_bytes, expected);
}

#[test]
fn light_capacity_is_enforced() {
    let mut program = program_with_mesh();
    program.initialize().unwrap();
    let color = LightColor::new(ultraviolet::Vec4::new(1.0, 1.0, 1.0, 1.0));
    let p = Position::new(ultraviolet::Vec3::new(0.0, 0.0, 0.0));
    for _ in 0..MAX_LIGHTS {
        program.add_light(&p, &color).unwrap();
    }
    let r = program.add_light(&p, &color);
    assert!(matches!(r, Err(ProgramError::TooManyLights)));
}

#[test]
fn add_light_without_block_or_count_uniform_fails() {
    let mut iface = ShaderInterface::new();
    assert!(iface.add_attribute("vertices".to_string(), 0));
    assert!(iface.add_attribute("normals".to_string(), 1));
    assert!(iface.add_attribute("object_mw_transforms".to_string(), 2));
    assert!(iface.add_attribute("object_mw_normal_transforms".to_string(), 6));
    let (mut program, _) = GLProgram::new_blinn_phong(7, iface);
    let color = LightColor::new(ultraviolet::Vec4::new(1.0, 1.0, 1.0, 1.0));
    let p = Position::new(ultraviolet::Vec3::new(0.0, 0.0, 0.0));
    let r = program.add_light(&p, &color);
    assert!(matches!(r, Err(ProgramError::BlockIndexNotFound(_))));

    // with the block declared but the count uniform never created, the
    // append is still refused
    let (mut program, _) = GLProgram::new_blinn_phong(7, full_interface());
    let r = program.add_light(&p, &color);
    assert!(matches!(
        r,
        Err(ProgramError::UniformNotAttachedToProgram(_))
    ));
}

#[test]
fn light_color_components_are_clamped_to_the_unit_interval() {
    let c = LightColor::new(ultraviolet::Vec4::new(2.0, -1.0, 0.5, 3.0));
    let v = c.to_vec4();
    assert_eq!([v.x, v.y, v.z, v.w], [1.0, 0.0, 0.5, 1.0]);
}

#[test]
fn uniform_life_cycle() {
    let mut program = program_with_mesh();
    // updating before creating is an error, never a silent no-op
    let r = program.update_uniform("num_lights", UniformValue::U32(1));
    assert!(matches!(
        r,
        Err(ProgramError::UniformNotAttachedToProgram(_))
    ));
    // a name the shader does not declare cannot be created
    let r = program.create_uniform("nonesuch", UniformValue::U32(1));
    assert!(matches!(r, Err(ProgramError::Uniform(_))));
    // initialization creates the four frame uniforms
    let ups = program.initialize().unwrap();
    assert_eq!(ups.len(), 4);
    assert!(program.get_uniform("num_lights").is_some());
    let up = program
        .update_uniform("num_lights", UniformValue::U32(9))
        .unwrap();
    assert_eq!(up.location, 13);
}

#[test]
fn attaching_the_same_mesh_name_twice_fails() {
    let mut program = program_with_mesh();
    let mesh = triangle_mesh("triangle");
    let r = program.attach_mesh(mesh, 43);
    assert!(matches!(r, Err(ProgramError::MeshAlreadyAttached(_))));
}

#[test]
fn first_draw_refreshes_the_camera_uniforms() {
    // a fresh program comes with one recompute request; completing it
    // (the kernel's set_pose) fills the cache, so the very first draw
    // refreshes the view-projection and camera-position uniforms
    let (mut program, camera_setup) = GLProgram::new_blinn_phong(7, full_interface());
    assert_eq!(camera_setup, vec![CameraAction::RecomputeView]);
    program.initialize().unwrap();
    let pose = ultraviolet::Mat4::from_translation(ultraviolet::Vec3::new(0.0, 0.0, -25.0));
    program.data.camera.set_pose(
        ultraviolet::Vec3::zero(),
        ultraviolet::Mat3::identity(),
        ultraviolet::Vec3::new(0.0, 0.0, 25.0),
        pose,
        pose,
    );
    let frame = program.draw().unwrap();
    assert_eq!(frame.uniform_updates.len(), 2);
    match frame.uniform_updates[0].value {
        UniformValue::Mat4(m) => assert_eq!(m, pose),
        _ => panic!("the first refresh carries the view-projection matrix"),
    }
    assert_eq!(frame.uniform_updates[0].location, 11);
    assert_eq!(frame.uniform_updates[1].location, 12);
    // the cache was taken: a second draw with no camera change refreshes
    // nothing
    let frame = program.draw().unwrap();
    assert!(frame.uniform_updates.is_empty());
}
