//! The per-frame state the window collaborator maintains, and the
//! translation of its input events into camera events.  Polling the window
//! and reading the clock happen outside; every decision about what an
//! input means — which key drives which camera event, how a held middle
//! button turns cursor motion into drags, when the frame asks to close —
//! is made and verified here, over plain values with magnitudes in
//! thousandths.
use vstd::prelude::*;

use crate::camera::CameraEvent;
use crate::camera::Direction;

verus! {

/// What the frame reports back to its owner.
#[derive(Clone, Copy, PartialEq, Eq, Structural, Debug)]
pub enum WindowEvent {
    Close,
}

/// A window input, already freed of the windowing library's types: the
/// keys this program binds, the middle mouse button with its modifier, the
/// scroll wheel, and a framebuffer resize with its new aspect ratio in
/// thousandths.
#[derive(Clone, Copy, PartialEq, Eq, Structural, Debug)]
pub enum InputEvent {
    KeyEscape,
    KeyProjectionSwap,
    KeyRotateUp,
    KeyRotateDown,
    KeyRotateLeft,
    KeyRotateRight,
    KeyZoomIn,
    KeyZoomOut,
    KeyCenter,
    KeyFlip,
    MiddlePress { shift: bool },
    MiddleRelease { shift: bool },
    ScrollUp,
    ScrollDown,
    FramebufferSize { width: u32, height: u32, aspect_milli: i64 },
}

/// Per-frame input state: the clock, the normalized cursor, the middle
/// mouse drag tracking, and the event queues the frame fills.
pub struct FrameState {
    pub time_milli: i64,
    pub delta_t_milli: i64,
    pub resolution: Option<(u32, u32)>,
    pub mm_cursor_position: (i64, i64),
    pub mm_shift_cursor_position: (i64, i64),
    pub mm_valid: bool,
    pub mm_shift_valid: bool,
    pub camera_events: Vec<CameraEvent>,
    pub window_events: Vec<WindowEvent>,
}

/// The camera events one input queues, given the frame's time step.
pub open spec fn input_camera_events(e: InputEvent, dt_milli: i64) -> Seq<CameraEvent> {
    match e {
        InputEvent::KeyEscape => Seq::empty(),
        InputEvent::KeyProjectionSwap => seq![CameraEvent::SwapProjection],
        InputEvent::KeyRotateUp => seq![CameraEvent::Rotation(Direction::Up)],
        InputEvent::KeyRotateDown => seq![CameraEvent::Rotation(Direction::Down)],
        InputEvent::KeyRotateLeft => seq![CameraEvent::Rotation(Direction::Left(dt_milli))],
        InputEvent::KeyRotateRight => seq![CameraEvent::Rotation(Direction::Right(dt_milli))],
        InputEvent::KeyZoomIn => seq![CameraEvent::ZoomProjection(100int as i64)],
        InputEvent::KeyZoomOut => seq![CameraEvent::ZoomProjection(-100int as i64)],
        InputEvent::KeyCenter => seq![CameraEvent::Movement(Direction::Center)],
        InputEvent::KeyFlip => seq![CameraEvent::Movement(Direction::Flip)],
        InputEvent::MiddlePress { .. } => Seq::empty(),
        InputEvent::MiddleRelease { .. } => Seq::empty(),
        InputEvent::ScrollUp => seq![CameraEvent::Movement(Direction::Forwards(dt_milli))],
        InputEvent::ScrollDown => seq![CameraEvent::Movement(Direction::Backwards(dt_milli))],
        InputEvent::FramebufferSize { aspect_milli, .. } => seq![
            CameraEvent::ProjectionAspectRatio(aspect_milli),
        ],
    }
}

impl FrameState {
    /// A fresh frame state at the given clock reading.
    pub fn new(time_milli: i64) -> (r: FrameState)
        ensures
            r.time_milli == time_milli,
            r.delta_t_milli == 0,
            r.resolution is None,
            !r.mm_valid,
            !r.mm_shift_valid,
            r.camera_events@.len() == 0,
            r.window_events@.len() == 0,
    {
        FrameState {
            time_milli,
            delta_t_milli: 0,
            resolution: None,
            mm_cursor_position: (0, 0),
            mm_shift_cursor_position: (0, 0),
            mm_valid: false,
            mm_shift_valid: false,
            camera_events: Vec::new(),
            window_events: Vec::new(),
        }
    }

    /// Opens a frame: advances the clock, clears the window events, and —
    /// while the middle button is held, with or without its modifier —
    /// turns the cursor's motion since the last frame into a target drag
    /// or a rotation drag, remembering where the cursor now is.
    pub fn begin_frame(&mut self, time_milli: i64, cursor: (i64, i64))
        requires
            -1_000_000_000 <= old(self).mm_cursor_position.0 <= 1_000_000_000,
            -1_000_000_000 <= old(self).mm_cursor_position.1 <= 1_000_000_000,
            -1_000_000_000 <= cursor.0 <= 1_000_000_000,
            -1_000_000_000 <= cursor.1 <= 1_000_000_000,
            -1_000_000_000_000 <= old(self).time_milli <= 1_000_000_000_000,
            -1_000_000_000_000 <= time_milli <= 1_000_000_000_000,
        ensures
            final(self).time_milli == time_milli,
            final(self).delta_t_milli == time_milli - old(self).time_milli,
            final(self).window_events@.len() == 0,
            (old(self).mm_shift_valid ==> final(self).camera_events@ == old(self).camera_events@.push(
                CameraEvent::Movement(
                    Direction::Vector(
                        (cursor.0 - old(self).mm_cursor_position.0) as i64,
                        (cursor.1 - old(self).mm_cursor_position.1) as i64,
                        0int as i64,
                    ),
                ),
            ) && final(self).mm_cursor_position == cursor),
            (!old(self).mm_shift_valid && old(self).mm_valid ==> final(self).camera_events@
                == old(self).camera_events@.push(
                CameraEvent::Rotation(
                    Direction::Vector(
                        (cursor.0 - old(self).mm_cursor_position.0) as i64,
                        (cursor.1 - old(self).mm_cursor_position.1) as i64,
                        0int as i64,
                    ),
                ),
            ) && final(self).mm_cursor_position == cursor),
            (!old(self).mm_shift_valid && !old(self).mm_valid ==> final(self).camera_events@
                == old(self).camera_events@ && final(self).mm_cursor_position == old(self).mm_cursor_position),
            final(self).mm_valid == old(self).mm_valid,
            final(self).mm_shift_valid == old(self).mm_shift_valid,
    {
        self.delta_t_milli = time_milli - self.time_milli;
        self.time_milli = time_milli;
        self.window_events.clear();
        if self.mm_shift_valid {
            let x = cursor.0 - self.mm_cursor_position.0;
            let y = cursor.1 - self.mm_cursor_position.1;
            self.camera_events.push(CameraEvent::Movement(Direction::Vector(x, y, 0)));
            self.mm_cursor_position = cursor;
        } else if self.mm_valid {
            let x = cursor.0 - self.mm_cursor_position.0;
            let y = cursor.1 - self.mm_cursor_position.1;
            self.camera_events.push(CameraEvent::Rotation(Direction::Vector(x, y, 0)));
            self.mm_cursor_position = cursor;
        }
    }

    /// Feeds one input through: the bound keys, the wheel and a resize
    /// queue their camera events; the escape key queues the close report;
    /// the middle button arms or disarms drag tracking from the current
    /// cursor.
    pub fn process_event(&mut self, e: InputEvent, cursor: (i64, i64))
        ensures
            final(self).camera_events@ == old(self).camera_events@ + input_camera_events(
                e,
                old(self).delta_t_milli,
            ),
            (e is KeyEscape ==> final(self).window_events@ == old(self).window_events@.push(
                WindowEvent::Close,
            )),
            (!(e is KeyEscape) ==> final(self).window_events@ == old(self).window_events@),
            (e matches InputEvent::MiddlePress { shift } ==> (shift ==> final(self).mm_shift_valid && final(self).mm_shift_cursor_position == cursor) && (!shift
                ==> final(self).mm_valid && final(self).mm_cursor_position == cursor)),
            (e matches InputEvent::MiddleRelease { shift } ==> (shift ==> !final(self).mm_shift_valid) && (!shift ==> !final(self).mm_valid)),
            (e matches InputEvent::FramebufferSize { width, height, .. } ==> final(self).resolution == Some((width, height))),
            final(self).time_milli == old(self).time_milli,
            final(self).delta_t_milli == old(self).delta_t_milli,
    {
        let ghost before = self.camera_events@;
        let dt = self.delta_t_milli;
        match e {
            InputEvent::KeyEscape => {
                self.window_events.push(WindowEvent::Close);
            },
            InputEvent::KeyProjectionSwap => {
                self.camera_events.push(CameraEvent::SwapProjection);
            },
            InputEvent::KeyRotateUp => {
                self.camera_events.push(CameraEvent::Rotation(Direction::Up));
            },
            InputEvent::KeyRotateDown => {
                self.camera_events.push(CameraEvent::Rotation(Direction::Down));
            },
            InputEvent::KeyRotateLeft => {
                self.camera_events.push(CameraEvent::Rotation(Direction::Left(dt)));
            },
            InputEvent::KeyRotateRight => {
                self.camera_events.push(CameraEvent::Rotation(Direction::Right(dt)));
            },
            InputEvent::KeyZoomIn => {
                self.camera_events.push(CameraEvent::ZoomProjection(100));
            },
            InputEvent::KeyZoomOut => {
                self.camera_events.push(CameraEvent::ZoomProjection(-100));
            },
            InputEvent::KeyCenter => {
                self.camera_events.push(CameraEvent::Movement(Direction::Center));
            },
            InputEvent::KeyFlip => {
                self.camera_events.push(CameraEvent::Movement(Direction::Flip));
            },
            InputEvent::MiddlePress { shift } => {
                if shift {
                    self.mm_shift_cursor_position = cursor;
                    self.mm_shift_valid = true;
                } else {
                    self.mm_cursor_position = cursor;
                    self.mm_valid = true;
                }
            },
            InputEvent::MiddleRelease { shift } => {
                if shift {
                    self.mm_shift_valid = false;
                } else {
                    self.mm_valid = false;
                }
            },
            InputEvent::ScrollUp => {
                self.camera_events.push(CameraEvent::Movement(Direction::Forwards(dt)));
            },
            InputEvent::ScrollDown => {
                self.camera_events.push(CameraEvent::Movement(Direction::Backwards(dt)));
            },
            InputEvent::FramebufferSize { width, height, aspect_milli } => {
                self.resolution = Some((width, height));
                self.camera_events.push(CameraEvent::ProjectionAspectRatio(aspect_milli));
            },
        }
        proof {
            assert(self.camera_events@ =~= before + input_camera_events(e, dt));
        }
    }

    /// Closes a frame: takes the queued camera events for the camera's
    /// update, leaving the queue empty.
    pub fn take_camera_events(&mut self) -> (r: Vec<CameraEvent>)
        ensures
            r@ == old(self).camera_events@,
            final(self).camera_events@.len() == 0,
            final(self).window_events == old(self).window_events,
            final(self).time_milli == old(self).time_milli,
            final(self).mm_valid == old(self).mm_valid,
            final(self).mm_shift_valid == old(self).mm_shift_valid,
    {
        let mut taken: Vec<CameraEvent> = Vec::new();
        core::mem::swap(&mut taken, &mut self.camera_events);
        taken
    }

    /// Whether this frame asked to close.
    pub fn should_close(&self) -> (r: bool)
        ensures
            r == (exists|i: int|
                0 <= i < self.window_events@.len() && (#[trigger] self.window_events@[i])
                    is Close),
    {
        if self.window_events.len() > 0 {
            match self.window_events[0] {
                WindowEvent::Close => {
                    proof {
                        assert((self.window_events@[0]) is Close);
                    }
                    true
                },
            }
        } else {
            false
        }
    }
}

} // verus!
