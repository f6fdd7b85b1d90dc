//! The arc-ball camera: a target point, a radius held in thousandths of a
//! unit, a rotation basis, and the cached view matrices.  An update drains
//! its event queue in order: movement events fold over the radius, which
//! never reaches the floor that would make the view singular; centering
//! resets target, radius, rotation and projection to their defaults;
//! projection events fold over the projection; and rotation and drag events
//! become an ordered list of actions for the caller's matrix kernel —
//! centering discards the work queued before it, since the reset
//! supersedes it — with one recompute request at the end.  An empty queue
//! changes nothing at all.
use vstd::prelude::*;

use crate::geom::mat3_identity;
use crate::geom::mat3_is_identity;
use crate::geom::mat4_identity;
use crate::geom::mat4_is_identity;
use crate::geom::vec3_is_zero;
use crate::geom::vec3_zero;
use crate::projection::clamp_int;
use crate::projection::spec_aspect;
use crate::projection::spec_default_perspective;
use crate::projection::spec_swap;
use crate::projection::spec_zoom;
use crate::projection::Projection;

verus! {

/// The radius below which the view matrix would degenerate; the camera
/// never reaches it from above.
pub const RADIUS_FLOOR_MILLI: u64 = 110;

/// The largest radius the model admits.
pub const RADIUS_CAP_MILLI: u64 = 1_000_000_000_000;

/// The default radius: twenty-five units.  A fresh camera starts here,
/// and centering comes back to it — the home view is the origin under the
/// default perspective, an identity rotation, and this distance.
pub const DEFAULT_RADIUS_MILLI: u64 = 25_000;

/// A movement or rotation, with magnitudes in thousandths.
pub enum Direction {
    Up,
    Down,
    In(i64),
    Out(i64),
    Left(i64),
    Right(i64),
    Forwards(i64),
    Backwards(i64),
    Absolute(ultraviolet::Vec3),
    Vector(i64, i64, i64),
    Ratio(i64),
    LookUp,
    LookDown,
    LookLeft,
    LookRight,
    Center,
    Flip,
}

/// One camera event, drained in order by an update.
pub enum CameraEvent {
    Movement(Direction),
    Rotation(Direction),
    SwapProjection,
    ProjectionAspectRatio(i64),
    ZoomProjection(i64),
}

/// What an update asks of the caller's floating-point kernel, in event
/// order: rotate the basis a fixed step about a local axis, rotate it by a
/// drag, move the target by a drag, and finally recompute the view
/// matrices from the new state.
#[derive(Clone, Copy, PartialEq, Eq, Structural, Debug)]
pub enum CameraAction {
    RotateUp,
    RotateDown,
    RotateLeft,
    RotateRight,
    RotateDrag { x: i64, y: i64 },
    TranslateTarget { x: i64, y: i64 },
    RecomputeView,
}

/// The radius after one event.
pub open spec fn radius_after_event(r: int, e: CameraEvent) -> int {
    match e {
        CameraEvent::Movement(d) => match d {
            Direction::Forwards(m) => clamp_int(
                r - m,
                RADIUS_FLOOR_MILLI as int,
                RADIUS_CAP_MILLI as int,
            ),
            Direction::Backwards(m) => clamp_int(
                r + m,
                RADIUS_FLOOR_MILLI as int,
                RADIUS_CAP_MILLI as int,
            ),
            Direction::Center => DEFAULT_RADIUS_MILLI as int,
            _ => r,
        },
        _ => r,
    }
}

/// The radius after a whole queue, folded in order.
pub open spec fn radius_after_events(r: int, events: Seq<CameraEvent>) -> int
    decreases events.len(),
{
    if events.len() == 0 {
        r
    } else {
        radius_after_events(radius_after_event(r, events.first()), events.drop_first())
    }
}

/// The projection after one event.
pub open spec fn projection_after_event(p: Projection, e: CameraEvent) -> Projection {
    match e {
        CameraEvent::Movement(d) => match d {
            Direction::Center => spec_default_perspective(),
            _ => p,
        },
        CameraEvent::SwapProjection => spec_swap(p),
        CameraEvent::ProjectionAspectRatio(a) => spec_aspect(p, a as int),
        CameraEvent::ZoomProjection(m) => spec_zoom(p, m as int),
        _ => p,
    }
}

/// The projection after a whole queue, folded in order.
pub open spec fn projection_after_events(p: Projection, events: Seq<CameraEvent>) -> Projection
    decreases events.len(),
{
    if events.len() == 0 {
        p
    } else {
        projection_after_events(projection_after_event(p, events.first()), events.drop_first())
    }
}

/// The actions one event asks of the matrix kernel.
pub open spec fn event_actions(e: CameraEvent) -> Seq<CameraAction> {
    match e {
        CameraEvent::Movement(d) => match d {
            Direction::Vector(x, y, _) => seq![CameraAction::TranslateTarget { x, y }],
            _ => Seq::empty(),
        },
        CameraEvent::Rotation(d) => match d {
            Direction::Up => seq![CameraAction::RotateUp],
            Direction::Down => seq![CameraAction::RotateDown],
            Direction::Left(_) => seq![CameraAction::RotateLeft],
            Direction::Right(_) => seq![CameraAction::RotateRight],
            Direction::Vector(x, y, _) => seq![CameraAction::RotateDrag { x, y }],
            _ => Seq::empty(),
        },
        _ => Seq::empty(),
    }
}

/// The kernel actions of a whole queue: those of the events after the
/// last centering reset, in event order.  Centering discards the rotation
/// and drag work queued before it — the reset supersedes it.
pub open spec fn actions_of(events: Seq<CameraEvent>) -> Seq<CameraAction>
    decreases events.len(),
{
    if events.len() == 0 {
        Seq::empty()
    } else if is_center(events.last()) {
        Seq::empty()
    } else {
        actions_of(events.drop_last()) + event_actions(events.last())
    }
}

/// Splitting a queue: a centering in the tail makes the head's actions
/// irrelevant; otherwise the actions concatenate.
proof fn lemma_actions_concat(a: Seq<CameraEvent>, b: Seq<CameraEvent>)
    ensures
        actions_of(a + b) == (if has_center(b) {
            actions_of(b)
        } else {
            actions_of(a) + actions_of(b)
        }),
    decreases b.len(),
{
    if b.len() == 0 {
        assert(a + b =~= a);
        assert(actions_of(a) + actions_of(b) =~= actions_of(a));
    } else {
        let l = b.last();
        let b0 = b.drop_last();
        assert((a + b).last() == l);
        assert((a + b).drop_last() =~= a + b0);
        lemma_actions_concat(a, b0);
        assert(has_center(b) == (is_center(l) || has_center(b0))) by {
            if is_center(l) {
                assert(is_center(b[b.len() - 1]));
            }
            if has_center(b0) {
                let j = choose|j: int| 0 <= j < b0.len() && is_center(#[trigger] b0[j]);
                assert(is_center(b[j]));
            }
            if has_center(b) && !is_center(l) {
                let j = choose|j: int| 0 <= j < b.len() && is_center(#[trigger] b[j]);
                assert(j < b.len() - 1);
                assert(is_center(b0[j]));
            }
        }
        if !is_center(l) && !has_center(b0) {
            assert((actions_of(a) + actions_of(b0)) + event_actions(l) =~= actions_of(a) + (
            actions_of(b0) + event_actions(l)));
        }
    }
}

/// The actions of a one-event queue are that event's.
proof fn lemma_actions_singleton(e: CameraEvent)
    ensures
        actions_of(seq![e]) == event_actions(e),
{
    let s = seq![e];
    assert(s.len() == 1);
    assert(s.last() == e);
    assert(s.drop_last() =~= Seq::<CameraEvent>::empty());
    if is_center(e) {
        assert(actions_of(s) == Seq::<CameraAction>::empty());
        assert(event_actions(e) =~= Seq::<CameraAction>::empty());
    } else {
        assert(actions_of(s) == actions_of(s.drop_last()) + event_actions(e));
        assert(actions_of(Seq::<CameraEvent>::empty()) + event_actions(e) =~= event_actions(e));
    }
}

/// Whether an event is the centering reset.
pub open spec fn is_center(e: CameraEvent) -> bool {
    e matches CameraEvent::Movement(Direction::Center)
}

/// Whether the queue holds a centering event.
pub open spec fn has_center(events: Seq<CameraEvent>) -> bool {
    exists|j: int| 0 <= j < events.len() && is_center(#[trigger] events[j])
}

pub struct ArcBallCamera {
    pub target: ultraviolet::Vec3,
    pub radius_milli: u64,
    pub rotation: ultraviolet::Mat3,
    pub position: ultraviolet::Vec3,
    pub view_matrix: ultraviolet::Mat4,
    pub projection: Projection,
    pub view_projection_matrix: Option<ultraviolet::Mat4>,
}

impl ArcBallCamera {
    pub open spec fn wf(self) -> bool {
        &&& RADIUS_FLOOR_MILLI <= self.radius_milli <= RADIUS_CAP_MILLI
        &&& self.projection.wf()
    }

    /// A fresh camera, together with the one recompute request that fills
    /// its view and view-projection caches.  A fresh camera carries its
    /// matrices already computed; here that computation is the kernel's,
    /// so the request comes along and its completion — one `set_pose` —
    /// leaves the first frame's uniform refresh in place.
    pub fn new() -> (r: (ArcBallCamera, Vec<CameraAction>))
        ensures
            r.0.wf(),
            r.0.radius_milli == DEFAULT_RADIUS_MILLI,
            vec3_is_zero(r.0.target),
            mat3_is_identity(r.0.rotation),
            vec3_is_zero(r.0.position),
            mat4_is_identity(r.0.view_matrix),
            r.0.projection == spec_default_perspective(),
            r.0.view_projection_matrix is None,
            r.1@ == seq![CameraAction::RecomputeView],
    {
        let camera = ArcBallCamera {
            target: vec3_zero(),
            radius_milli: DEFAULT_RADIUS_MILLI,
            rotation: mat3_identity(),
            position: vec3_zero(),
            view_matrix: mat4_identity(),
            projection: Projection::default_perspective(),
            view_projection_matrix: None,
        };
        let mut actions: Vec<CameraAction> = Vec::new();
        actions.push(CameraAction::RecomputeView);
        proof {
            assert(actions@ =~= seq![CameraAction::RecomputeView]);
        }
        (camera, actions)
    }

    pub fn view_matrix(&self) -> (r: ultraviolet::Mat4)
        ensures
            r == self.view_matrix,
    {
        self.view_matrix
    }

    pub fn position(&self) -> (r: ultraviolet::Vec3)
        ensures
            r == self.position,
    {
        self.position
    }

    /// Takes the cached view-projection matrix: the caller gets it once
    /// after each recompute, and nothing until the next one.
    pub fn view_projection_matrix(&mut self) -> (r: Option<ultraviolet::Mat4>)
        ensures
            r == old(self).view_projection_matrix,
            final(self).view_projection_matrix is None,
            final(self).target == old(self).target,
            final(self).radius_milli == old(self).radius_milli,
            final(self).rotation == old(self).rotation,
            final(self).position == old(self).position,
            final(self).view_matrix == old(self).view_matrix,
            final(self).projection == old(self).projection,
    {
        self.view_projection_matrix.take()
    }

    /// Stores what the matrix kernel computed for the current state: the
    /// camera's position, its rotation basis, its target, the view matrix
    /// and the premultiplied view-projection matrix.
    pub fn set_pose(
        &mut self,
        target: ultraviolet::Vec3,
        rotation: ultraviolet::Mat3,
        position: ultraviolet::Vec3,
        view_matrix: ultraviolet::Mat4,
        view_projection_matrix: ultraviolet::Mat4,
    )
        ensures
            final(self).target == target,
            final(self).rotation == rotation,
            final(self).position == position,
            final(self).view_matrix == view_matrix,
            final(self).view_projection_matrix == Some(view_projection_matrix),
            final(self).radius_milli == old(self).radius_milli,
            final(self).projection == old(self).projection,
            old(self).wf() ==> final(self).wf(),
    {
        self.target = target;
        self.rotation = rotation;
        self.position = position;
        self.view_matrix = view_matrix;
        self.view_projection_matrix = Some(view_projection_matrix);
    }

    /// Drains the event queue in order.  The radius and the projection
    /// fold over the events exactly; centering resets target, radius,
    /// rotation and projection to their defaults and discards the
    /// rotation and drag work queued before it; the returned actions are
    /// the remaining work for the caller's kernel, in event order, closed
    /// by one recompute request — and an empty queue leaves the camera
    /// untouched, the cached view matrix included, and asks for nothing.
    pub fn update(&mut self, events: Vec<CameraEvent>) -> (r: Vec<CameraAction>)
        requires
            old(self).wf(),
        ensures
            final(self).wf(),
            r@ == actions_of(events@) + (if events@.len() > 0 {
                seq![CameraAction::RecomputeView]
            } else {
                Seq::<CameraAction>::empty()
            }),
            final(self).radius_milli as int == radius_after_events(
                old(self).radius_milli as int,
                events@,
            ),
            final(self).projection == projection_after_events(old(self).projection, events@),
            events@.len() == 0 ==> *final(self) == *old(self),
            !has_center(events@) ==> final(self).target == old(self).target
                && final(self).rotation == old(self).rotation,
            has_center(events@) ==> vec3_is_zero(final(self).target) && mat3_is_identity(
                final(self).rotation,
            ),
            events@.len() > 0 ==> final(self).view_projection_matrix is None,
            final(self).view_matrix == old(self).view_matrix,
            final(self).position == old(self).position,
    {
        let n = events.len();
        let ghost r0 = self.radius_milli as int;
        let ghost p0 = self.projection;
        let mut actions: Vec<CameraAction> = Vec::new();
        let mut i: usize = 0;
        proof {
            assert(events@.skip(0) =~= events@);
            assert(Seq::<CameraAction>::empty() + actions_of(events@) =~= actions_of(events@));
        }
        while i < n
            invariant
                i <= n,
                n == events@.len(),
                self.wf(),
                radius_after_events(self.radius_milli as int, events@.skip(i as int))
                    == radius_after_events(r0, events@),
                projection_after_events(self.projection, events@.skip(i as int))
                    == projection_after_events(p0, events@),
                (has_center(events@.skip(i as int)) ==> actions_of(events@) == actions_of(
                    events@.skip(i as int),
                )),
                (!has_center(events@.skip(i as int)) ==> actions_of(events@) == actions@
                    + actions_of(events@.skip(i as int))),
                (!has_center(events@.take(i as int)) ==> self.target == old(self).target
                    && self.rotation == old(self).rotation),
                (has_center(events@.take(i as int)) ==> vec3_is_zero(self.target)
                    && mat3_is_identity(self.rotation)),
                self.view_matrix == old(self).view_matrix,
                self.position == old(self).position,
                self.view_projection_matrix == old(self).view_projection_matrix,
            decreases n - i,
        {
            let ghost rem = events@.skip(i as int);
            let ghost acts_before = actions@;
            proof {
                assert(rem.first() == events@[i as int]);
                assert(rem.drop_first() =~= events@.skip(i + 1 as int));
                assert(events@.take(i + 1 as int).drop_last() =~= events@.take(i as int));
                assert(events@.take(i + 1 as int).last() == events@[i as int]);
                assert(rem =~= seq![events@[i as int]] + events@.skip(i + 1 as int));
                lemma_actions_concat(seq![events@[i as int]], events@.skip(i + 1 as int));
                lemma_actions_singleton(events@[i as int]);
            }
            let event = &events[i];
            match event {
                CameraEvent::Movement(d) => {
                    match d {
                        Direction::Forwards(m) => {
                            let wide = (self.radius_milli as i128) - (*m as i128);
                            self.radius_milli = clamp_radius(wide);
                        },
                        Direction::Backwards(m) => {
                            let wide = (self.radius_milli as i128) + (*m as i128);
                            self.radius_milli = clamp_radius(wide);
                        },
                        Direction::Center => {
                            self.target = vec3_zero();
                            self.rotation = mat3_identity();
                            self.radius_milli = DEFAULT_RADIUS_MILLI;
                            self.projection = Projection::default_perspective();
                            // the reset supersedes whatever kernel work
                            // earlier events queued
                            actions.clear();
                            proof {
                                assert(events@.take(i + 1 as int)[i as int]
                                    == events@[i as int]);
                                assert(has_center(events@.take(i + 1 as int)));
                            }
                        },
                        Direction::Vector(x, y, _) => {
                            actions.push(CameraAction::TranslateTarget { x: *x, y: *y });
                        },
                        _ => {},
                    }
                },
                CameraEvent::Rotation(d) => {
                    match d {
                        Direction::Up => {
                            actions.push(CameraAction::RotateUp);
                        },
                        Direction::Down => {
                            actions.push(CameraAction::RotateDown);
                        },
                        Direction::Left(_) => {
                            actions.push(CameraAction::RotateLeft);
                        },
                        Direction::Right(_) => {
                            actions.push(CameraAction::RotateRight);
                        },
                        Direction::Vector(x, y, _) => {
                            actions.push(CameraAction::RotateDrag { x: *x, y: *y });
                        },
                        _ => {},
                    }
                },
                CameraEvent::SwapProjection => {
                    self.projection = self.projection.swap();
                },
                CameraEvent::ProjectionAspectRatio(a) => {
                    self.projection = self.projection.aspect_ratio(*a);
                },
                CameraEvent::ZoomProjection(m) => {
                    self.projection = self.projection.zoom(*m);
                },
            }
            proof {
                if !has_center(events@.take(i + 1 as int)) {
                    assert(!has_center(events@.take(i as int))) by {
                        if has_center(events@.take(i as int)) {
                            let j = choose|j: int|
                                0 <= j < i && is_center(
                                    #[trigger] events@.take(i as int)[j],
                                );
                            assert(events@.take(i + 1 as int)[j] == events@.take(i as int)[j]);
                        }
                    }
                }
                // the action accumulator keeps pace with the discarding
                // fold: a later centering makes it irrelevant, otherwise
                // it carries the processed events' actions exactly
                let e = events@[i as int];
                let tail = events@.skip(i + 1 as int);
                if is_center(e) {
                    assert(is_center(rem[0]));
                    assert(has_center(rem));
                    assert(actions@ =~= Seq::<CameraAction>::empty());
                    if !has_center(tail) {
                        assert(actions_of(rem) == actions_of(seq![e]) + actions_of(tail));
                        assert(actions_of(seq![e]) =~= Seq::<CameraAction>::empty());
                        assert(actions_of(seq![e]) + actions_of(tail) =~= actions_of(tail));
                        assert(actions_of(events@) == actions@ + actions_of(tail)) by {
                            assert(actions@ + actions_of(tail) =~= actions_of(tail));
                        }
                    }
                } else {
                    assert(actions@ =~= acts_before + event_actions(e));
                    if has_center(tail) {
                        let j = choose|j: int| 0 <= j < tail.len() && is_center(
                            #[trigger] tail[j],
                        );
                        assert(rem[j + 1] == tail[j]);
                        assert(has_center(rem));
                    } else {
                        assert(!has_center(rem)) by {
                            if has_center(rem) {
                                let j = choose|j: int|
                                    0 <= j < rem.len() && is_center(#[trigger] rem[j]);
                                if j == 0 {
                                    assert(is_center(e));
                                } else {
                                    assert(tail[j - 1] == rem[j]);
                                }
                            }
                        }
                        assert(actions_of(rem) == event_actions(e) + actions_of(tail));
                        assert(acts_before + (event_actions(e) + actions_of(tail)) =~= (
                        acts_before + event_actions(e)) + actions_of(tail));
                    }
                }
            }
            i += 1;
        }
        proof {
            assert(events@.skip(n as int) =~= Seq::<CameraEvent>::empty());
            assert(events@.take(n as int) =~= events@);
            assert(actions@ + Seq::<CameraAction>::empty() =~= actions@);
        }
        if n > 0 {
            actions.push(CameraAction::RecomputeView);
            self.view_projection_matrix = None;
        }
        actions
    }
}

/// Clamps a wide radius back into the working range.
fn clamp_radius(wide: i128) -> (r: u64)
    ensures
        r as int == clamp_int(wide as int, RADIUS_FLOOR_MILLI as int, RADIUS_CAP_MILLI as int),
{
    if wide < RADIUS_FLOOR_MILLI as i128 {
        RADIUS_FLOOR_MILLI
    } else if wide > RADIUS_CAP_MILLI as i128 {
        RADIUS_CAP_MILLI
    } else {
        wide as u64
    }
}

} // verus!
