//! The arc-ball camera's event folding and the projection's framing
//! algebra.
use glscene::camera::{
    ArcBallCamera, CameraAction, CameraEvent, Direction, DEFAULT_RADIUS_MILLI,
    RADIUS_FLOOR_MILLI,
};
use glscene::projection::Projection;

fn mat4_bits(m: &ultraviolet::Mat4) -> [u32; 16] {
    let mut out = [0u32; 16];
    for c in 0..4 {
        let col = m.cols[c];
        for (r, v) in [col.x, col.y, col.z, col.w].into_iter().enumerate() {
            out[c * 4 + r] = v.to_bits();
        }
    }
    out
}

#[test]
fn empty_update_leaves_the_view_matrix_bit_identical() {
    let (mut camera, _) = ArcBallCamera::new();
    let before = mat4_bits(&camera.view_matrix());
    let radius_before = camera.radius_milli;
    let actions = camera.update(Vec::new());
    assert!(actions.is_empty());
    assert_eq!(mat4_bits(&camera.view_matrix()), before);
    assert_eq!(camera.radius_milli, radius_before);
}

#[test]
fn forward_movement_shrinks_the_radius_and_clamps_at_the_floor() {
    let (mut camera, _) = ArcBallCamera::new();
    assert_eq!(camera.radius_milli, DEFAULT_RADIUS_MILLI);
    // moving forwards one unit from twenty-five units leaves twenty-four
    let actions = camera.update(vec![CameraEvent::Movement(Direction::Forwards(1_000))]);
    assert_eq!(camera.radius_milli, 24_000);
    assert_eq!(actions, vec![CameraAction::RecomputeView]);
    // repeating until the radius would cross the floor clamps it there,
    // never below
    for _ in 0..40 {
        camera.update(vec![CameraEvent::Movement(Direction::Forwards(1_000))]);
        assert!(camera.radius_milli >= RADIUS_FLOOR_MILLI);
    }
    assert_eq!(camera.radius_milli, RADIUS_FLOOR_MILLI);
    camera.update(vec![CameraEvent::Movement(Direction::Backwards(500))]);
    assert_eq!(camera.radius_milli, RADIUS_FLOOR_MILLI + 500);
}

#[test]
fn centering_resets_radius_and_projection() {
    let (mut camera, _) = ArcBallCamera::new();
    camera.update(vec![
        CameraEvent::Movement(Direction::Backwards(5_000)),
        CameraEvent::SwapProjection,
        CameraEvent::Movement(Direction::Center),
    ]);
    // centering comes back to the defaults: the fresh camera's radius and
    // the default perspective
    assert_eq!(camera.radius_milli, DEFAULT_RADIUS_MILLI);
    assert!(matches!(camera.projection, Projection::Perspective { .. }));
}

#[test]
fn centering_discards_the_work_queued_before_it() {
    // the reset supersedes rotation and drag work queued earlier in the
    // same frame: only work after the centering reaches the kernel
    let (mut camera, _) = ArcBallCamera::new();
    let actions = camera.update(vec![
        CameraEvent::Rotation(Direction::Up),
        CameraEvent::Movement(Direction::Vector(1, 2, 0)),
        CameraEvent::Movement(Direction::Center),
        CameraEvent::Rotation(Direction::Down),
    ]);
    assert_eq!(
        actions,
        vec![CameraAction::RotateDown, CameraAction::RecomputeView]
    );
    // a centering last in the queue leaves only the recompute
    let actions = camera.update(vec![
        CameraEvent::Rotation(Direction::Up),
        CameraEvent::Movement(Direction::Center),
    ]);
    assert_eq!(actions, vec![CameraAction::RecomputeView]);
}

#[test]
fn rotation_events_become_ordered_kernel_actions() {
    let (mut camera, _) = ArcBallCamera::new();
    let actions = camera.update(vec![
        CameraEvent::Rotation(Direction::Up),
        CameraEvent::Rotation(Direction::Left(7)),
        CameraEvent::Rotation(Direction::Vector(3, -4, 0)),
        CameraEvent::Movement(Direction::Vector(1, 2, 0)),
    ]);
    assert_eq!(
        actions,
        vec![
            CameraAction::RotateUp,
            CameraAction::RotateLeft,
            CameraAction::RotateDrag { x: 3, y: -4 },
            CameraAction::TranslateTarget { x: 1, y: 2 },
            CameraAction::RecomputeView,
        ]
    );
}

#[test]
fn swapping_twice_restores_the_orthographic_half_extent() {
    let p = Projection::new_ortho(10_000, 1_000);
    let q = p.swap();
    assert!(matches!(q, Projection::Perspective { .. }));
    let back = q.swap();
    match back {
        Projection::Ortho { side, aspect_ratio, .. } => {
            // within a thousandth of ten units; the integer algebra is in
            // fact exact here
            assert!((side - 10_000).abs() <= 1);
            assert_eq!(side, 10_000);
            assert_eq!(aspect_ratio, 1_000);
        }
        _ => panic!("two swaps must come back to an orthographic framing"),
    }
}

#[test]
fn zoom_clamps_against_degenerate_framings() {
    // an orthographic zoom never reaches a zero half-extent
    let p = Projection::new_ortho(200, 1_000);
    let p = p.zoom(-1_000);
    match p {
        Projection::Ortho { side, .. } => assert_eq!(side, 100),
        _ => panic!("zoom must keep the projection orthographic"),
    }
    // a perspective zoom keeps the framing between its bounds
    let q = Projection::default_perspective();
    let q = q.zoom(-1_000_000);
    match q {
        Projection::Perspective { half_tan, .. } => assert_eq!(half_tan, 546),
        _ => panic!("zoom must keep the projection perspective"),
    }
    let q = q.zoom(1_000_000_000);
    match q {
        Projection::Perspective { half_tan, .. } => assert_eq!(half_tan, 19_983),
        _ => panic!("zoom must keep the projection perspective"),
    }
}

#[test]
fn mutating_the_projection_drops_its_cached_matrix() {
    let mut p = Projection::new_ortho(10_000, 1_000);
    assert!(p.matrix().is_none());
    p.set_matrix(ultraviolet::Mat4::identity());
    assert!(p.matrix().is_some());
    let p = p.zoom(100);
    assert!(p.matrix().is_none());
}

#[test]
fn view_projection_cache_is_taken_once() {
    let (mut camera, _) = ArcBallCamera::new();
    camera.update(vec![CameraEvent::Movement(Direction::Forwards(1_000))]);
    assert!(camera.view_projection_matrix().is_none());
    camera.set_pose(
        ultraviolet::Vec3::zero(),
        ultraviolet::Mat3::identity(),
        ultraviolet::Vec3::new(0.0, 0.0, 24.0),
        ultraviolet::Mat4::identity(),
        ultraviolet::Mat4::identity(),
    );
    assert!(camera.view_projection_matrix().is_some());
    // the cache hands its value out once
    assert!(camera.view_projection_matrix().is_none());
}

#[test]
fn projection_events_apply_in_queue_order() {
    // a zoom queued after a swap must act on the swapped framing
    let (mut camera, _) = ArcBallCamera::new();
    camera.update(vec![
        CameraEvent::SwapProjection,
        CameraEvent::ZoomProjection(100),
    ]);
    match camera.projection {
        Projection::Ortho { side, .. } => {
            // the default perspective framing swaps to an orthographic
            // half-extent of near times the framing parameter, then zooms
            // ten thousandths per step
            assert_eq!(side, 58 + 1_000);
        }
        _ => panic!("the swap must come first"),
    }
}

#[test]
fn fresh_camera_requests_one_recompute() {
    let (camera, actions) = ArcBallCamera::new();
    assert_eq!(actions, vec![CameraAction::RecomputeView]);
    // until the kernel completes it, there is nothing cached to take
    let mut camera = camera;
    assert!(camera.view_projection_matrix().is_none());
}
