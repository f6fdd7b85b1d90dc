//! Attribute binding: the split of matrix attributes into slots, the
//! lazy per-name records, and the refusal of names the shader does not
//! declare.
use glscene::mesh::Mesh;
use glscene::mesh::RawShape;
use glscene::shader::ShaderInterface;
use glscene::vao::{attribute_slots, AttributeKind, VAOError, VAO};

fn small_interface() -> ShaderInterface {
    let mut iface = ShaderInterface::new();
    assert!(iface.add_attribute("vertices".to_string(), 0));
    assert!(iface.add_attribute("instance_transforms".to_string(), 2));
    iface
}

#[test]
fn mat4_instance_attribute_occupies_four_divisor_one_slots() {
    let slots = attribute_slots(2, AttributeKind::Mat4, true);
    assert_eq!(slots.len(), 4);
    for (i, slot) in slots.iter().enumerate() {
        assert_eq!(slot.location, 2 + i as u32);
        assert_eq!(slot.components, 4);
        // the stride is the size of one four-by-four single-precision
        // matrix, and each column starts one vector further in
        assert_eq!(slot.stride, 64);
        assert_eq!(slot.offset, 16 * i as u32);
        assert_eq!(slot.divisor, 1);
    }
    assert_eq!(
        slots.iter().map(|s| s.offset).collect::<Vec<u32>>(),
        vec![0, 16, 32, 48]
    );
}

#[test]
fn mat3_instance_attribute_occupies_three_slots() {
    let slots = attribute_slots(6, AttributeKind::Mat3, true);
    assert_eq!(slots.len(), 3);
    for (i, slot) in slots.iter().enumerate() {
        assert_eq!(slot.location, 6 + i as u32);
        assert_eq!(slot.components, 3);
        assert_eq!(slot.stride, 36);
        assert_eq!(slot.offset, 12 * i as u32);
        assert_eq!(slot.divisor, 1);
    }
}

#[test]
fn per_vertex_attribute_has_divisor_zero() {
    let slots = attribute_slots(0, AttributeKind::Vec3, false);
    assert_eq!(slots.len(), 1);
    assert_eq!(slots[0].components, 3);
    assert_eq!(slots[0].stride, 12);
    assert_eq!(slots[0].offset, 0);
    assert_eq!(slots[0].divisor, 0);
}

#[test]
fn binding_an_absent_attribute_allocates_nothing() {
    let iface = small_interface();
    let indices = vec![0u32, 1, 2];
    let mut vao = VAO::new(9, 4, &indices).unwrap();
    let before = vao.buffer_count();
    let r = vao.add_attribute(&iface, "nonesuch", AttributeKind::Vec3, false);
    match r {
        Err(VAOError::AttributeNotFound(name)) => assert_eq!(name, "nonesuch"),
        _ => panic!("an absent name must be refused as not found"),
    }
    // no buffer handle leaked for the failed bind
    assert_eq!(vao.buffer_count(), before);
}

#[test]
fn rebinding_a_name_reuses_its_record() {
    let iface = small_interface();
    let indices = vec![0u32, 1, 2];
    let mut vao = VAO::new(9, 4, &indices).unwrap();
    let first = vao
        .add_attribute(&iface, "vertices", AttributeKind::Vec3, false)
        .unwrap();
    assert!(first.allocated);
    let again = vao
        .add_attribute(&iface, "vertices", AttributeKind::Vec3, false)
        .unwrap();
    assert!(!again.allocated);
    assert_eq!(again.attribute, first.attribute);
    let update = vao
        .update_attribute("vertices", AttributeKind::Vec3, false)
        .unwrap();
    assert_eq!(update.attribute, first.attribute);
    let r = vao.update_attribute("nonesuch", AttributeKind::Vec3, false);
    assert!(matches!(r, Err(VAOError::CouldNotFindAttribute(_))));
}

#[test]
fn attachment_is_atomic_when_a_name_is_missing() {
    // the interface lacks the per-instance attributes, so the whole
    // attachment must be refused with the missing name
    let mut iface = ShaderInterface::new();
    assert!(iface.add_attribute("vertices".to_string(), 0));
    assert!(iface.add_attribute("normals".to_string(), 1));
    let vertices = vec![ultraviolet::Vec3::new(0.0, 0.0, 0.0)];
    let normals = vec![ultraviolet::Vec3::new(0.0, 0.0, 1.0)];
    let shapes = vec![RawShape::Triangle(
        (0, None, Some(0)),
        (0, None, Some(0)),
        (0, None, Some(0)),
    )];
    let mesh = Mesh::from_object_data("m".to_string(), &vertices, &normals, &shapes).unwrap();
    match mesh.attach(1, 2, &iface) {
        Err(glscene::mesh::MeshError::VAO(VAOError::AttributeNotFound(name))) => {
            assert_eq!(name, "object_mw_transforms");
        }
        _ => panic!("attachment must fail naming the absent attribute"),
    }
}

#[test]
fn attachment_declares_the_four_attributes_and_seeds_instances() {
    let mut iface = ShaderInterface::new();
    assert!(iface.add_attribute("vertices".to_string(), 0));
    assert!(iface.add_attribute("normals".to_string(), 1));
    assert!(iface.add_attribute("object_mw_transforms".to_string(), 2));
    assert!(iface.add_attribute("object_mw_normal_transforms".to_string(), 6));
    let vertices = vec![
        ultraviolet::Vec3::new(0.0, 0.0, 0.0),
        ultraviolet::Vec3::new(1.0, 0.0, 0.0),
        ultraviolet::Vec3::new(0.0, 1.0, 0.0),
    ];
    let normals = vec![ultraviolet::Vec3::new(0.0, 0.0, 1.0)];
    let shapes = vec![RawShape::Triangle(
        (0, None, Some(0)),
        (1, None, Some(0)),
        (2, None, Some(0)),
    )];
    let mesh = Mesh::from_object_data("m".to_string(), &vertices, &normals, &shapes).unwrap();
    let (attached, setup) = mesh.attach(1, 2, &iface).unwrap();
    assert_eq!(attached.data.vao.elements.buffer_length, 3);
    assert_eq!(setup.vertex_attr.attribute.location, 0);
    assert_eq!(setup.normal_attr.attribute.location, 1);
    assert_eq!(setup.transform_attr.attribute.location, 2);
    assert_eq!(setup.transform_attr.slots.len(), 4);
    assert_eq!(setup.normal_transform_attr.attribute.location, 6);
    assert_eq!(setup.normal_transform_attr.slots.len(), 3);
    // both instance buffers are seeded with one identity entry, so the
    // mesh is immediately drawable
    assert_eq!(setup.transform_seed.len(), 1);
    assert_eq!(setup.transform_seed[0], ultraviolet::Mat4::identity());
    assert_eq!(setup.normal_transform_seed.len(), 1);
    assert_eq!(setup.normal_transform_seed[0], ultraviolet::Mat3::identity());
}
