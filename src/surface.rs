//! The surface state machine: mapping, size, the outstanding frame request and
//! the exit flag, driven one event at a time.

use vstd::prelude::*;

verus! {

/// Width of the surface before the compositor proposes one.
pub const INITIAL_WIDTH: u32 = 500;

/// Height of the surface before the compositor proposes one.
pub const INITIAL_HEIGHT: u32 = 500;

/// Bytes per pixel of the 32-bit ARGB format every buffer uses.
pub const BYTES_PER_PIXEL: u32 = 4;

/// Nanoseconds in one second.
pub const NANOS_PER_SECOND: u128 = 1_000_000_000;

/// Nanoseconds in half a second: where the orientation flips within each second.
pub const HALF_SECOND_NANOS: u128 = 500_000_000;

/// Orientation applied to the buffer of the next commit.
#[derive(Clone, Copy, Debug, PartialEq, Eq, Structural)]
pub enum Transform {
    Normal,
    Flipped180,
}

/// Where the surface stands in the frame cycle.
#[derive(Clone, Copy, Debug, PartialEq, Eq, Structural)]
pub enum FrameSlot {
    /// No frame notification is outstanding: a render may start.
    Idle,
    /// A frame has been planned and handed out; its notification is not yet requested.
    Drawing,
    /// A frame notification with this callback id is outstanding.
    Pending(u32),
}

/// Everything the caller needs to produce and publish one frame.
#[derive(Clone, Copy, Debug, PartialEq, Eq, Structural)]
pub struct FramePlan {
    pub width: u32,
    pub height: u32,
    /// Bytes per row: `width * BYTES_PER_PIXEL`.
    pub stride: u32,
    pub transform: Transform,
}

/// An incoming protocol event, as far as the state machine cares.
#[derive(Clone, Copy, Debug, PartialEq, Eq, Structural)]
pub enum Event {
    /// The shell surface was configured; the serial must be acknowledged.
    SurfaceConfigure { serial: u32 },
    /// The toplevel proposes a size; a zero component means "keep the current one".
    ToplevelConfigure { width: i32, height: i32 },
    /// The toplevel was asked to close.
    ToplevelClose,
    /// The compositor fired the frame notification with this callback id.
    FrameDone { callback: u32 },
    /// Any other toplevel event: ignored.
    Other,
}

/// Work the caller performs, in order, for one handled event.
#[derive(Clone, Copy, Debug, PartialEq, Eq, Structural)]
pub enum Action {
    /// Acknowledge the surface configuration with this serial.
    AckConfigure { serial: u32 },
    /// Allocate, fill, attach and damage a buffer, request a frame notification
    /// (then report it with `frame_requested`) and commit.
    Draw(FramePlan),
    /// Stop the dispatch loop.
    StopDispatch,
}

/// Fatal conditions; the session cannot go on after any of them.
#[derive(Clone, Copy, Debug, PartialEq, Eq, Structural)]
pub enum ClientError {
    /// A proposed dimension is negative and has no unsigned representation.
    DimensionOutOfRange,
    /// `width * BYTES_PER_PIXEL` does not fit the stride's integer type.
    StrideOutOfRange,
    /// A frame notification arrived for a callback that is not the outstanding one.
    UnexpectedFrameCallback,
}

/// The state of the one surface, for the whole session.
#[derive(Clone, Copy, Debug, PartialEq, Eq, Structural)]
pub struct SurfaceState {
    /// Set by a close event; never cleared.
    pub exit: bool,
    /// Set once the first surface configuration was acknowledged.
    pub mapped: bool,
    pub width: u32,
    pub height: u32,
    pub frame: FrameSlot,
}

/// The state a session starts in: unmapped, idle, at the initial size.
pub open spec fn initial_state() -> SurfaceState {
    SurfaceState {
        exit: false,
        mapped: false,
        width: INITIAL_WIDTH,
        height: INITIAL_HEIGHT,
        frame: FrameSlot::Idle,
    }
}

/// The orientation for a moment `elapsed_nanos` after the session began:
/// normal in the first half of each second, flipped in the second half.
pub open spec fn transform_at(elapsed_nanos: u128) -> Transform {
    if elapsed_nanos % NANOS_PER_SECOND < HALF_SECOND_NANOS {
        Transform::Normal
    } else {
        Transform::Flipped180
    }
}

/// A render does work only on a mapped, open surface with no frame in flight.
pub open spec fn can_render(s: SurfaceState) -> bool {
    s.mapped && !s.exit && s.frame == FrameSlot::Idle
}

/// The row length of a buffer `width` pixels wide fits in a `u32`.
pub open spec fn stride_fits(width: u32) -> bool {
    width * BYTES_PER_PIXEL <= u32::MAX
}

/// The frame drawn from state `s` at `elapsed_nanos`.
pub open spec fn plan_for(s: SurfaceState, elapsed_nanos: u128) -> FramePlan {
    FramePlan {
        width: s.width,
        height: s.height,
        stride: (s.width * BYTES_PER_PIXEL) as u32,
        transform: transform_at(elapsed_nanos),
    }
}

/// The result of a render attempt: the next state and the actions to perform.
pub open spec fn render_spec(s: SurfaceState, elapsed_nanos: u128) -> Result<
    (SurfaceState, Seq<Action>),
    ClientError,
> {
    if !can_render(s) {
        Ok((s, seq![]))
    } else if !stride_fits(s.width) {
        Err(ClientError::StrideOutOfRange)
    } else {
        Ok(
            (
                SurfaceState { frame: FrameSlot::Drawing, ..s },
                seq![Action::Draw(plan_for(s, elapsed_nanos))],
            ),
        )
    }
}

/// A dimension after a proposal: zero keeps the current value.
pub open spec fn resized(current: u32, proposed: i32) -> u32 {
    if proposed == 0 {
        current
    } else {
        proposed as u32
    }
}

/// The result of handling `e` in state `s` at `elapsed_nanos`.
pub open spec fn step(s: SurfaceState, e: Event, elapsed_nanos: u128) -> Result<
    (SurfaceState, Seq<Action>),
    ClientError,
> {
    match e {
        Event::SurfaceConfigure { serial } => {
            match render_spec(SurfaceState { mapped: true, ..s }, elapsed_nanos) {
                Ok((next, acts)) => Ok((next, seq![Action::AckConfigure { serial }] + acts)),
                Err(err) => Err(err),
            }
        },
        Event::ToplevelConfigure { width, height } => {
            if width < 0 || height < 0 {
                Err(ClientError::DimensionOutOfRange)
            } else {
                Ok(
                    (
                        SurfaceState {
                            width: resized(s.width, width),
                            height: resized(s.height, height),
                            ..s
                        },
                        seq![],
                    ),
                )
            }
        },
        Event::ToplevelClose => Ok((SurfaceState { exit: true, ..s }, seq![Action::StopDispatch])),
        Event::FrameDone { callback } => {
            if s.frame == FrameSlot::Pending(callback) {
                render_spec(SurfaceState { frame: FrameSlot::Idle, ..s }, elapsed_nanos)
            } else {
                Err(ClientError::UnexpectedFrameCallback)
            }
        },
        Event::Other => Ok((s, seq![])),
    }
}

/// `r` is what `expected` describes: on success the state moved to the
/// expected one and the actions are the expected ones; on failure the state
/// is unchanged and the error is the expected one.
pub open spec fn follows(
    pre: SurfaceState,
    post: SurfaceState,
    r: Result<Vec<Action>, ClientError>,
    expected: Result<(SurfaceState, Seq<Action>), ClientError>,
) -> bool {
    match r {
        Ok(acts) => expected == Ok::<(SurfaceState, Seq<Action>), ClientError>((post, acts@)),
        Err(err) => expected == Err::<(SurfaceState, Seq<Action>), ClientError>(err) && post
            == pre,
    }
}

/// The orientation for a moment `elapsed_nanos` after the session began.
pub fn transform_for(elapsed_nanos: u128) -> (r: Transform)
    ensures
        r == transform_at(elapsed_nanos),
{
    if elapsed_nanos % NANOS_PER_SECOND < HALF_SECOND_NANOS {
        Transform::Normal
    } else {
        Transform::Flipped180
    }
}

impl SurfaceState {
    /// A fresh, unmapped surface with no frame in flight.
    pub fn new() -> (r: SurfaceState)
        ensures
            r == initial_state(),
    {
        SurfaceState {
            exit: false,
            mapped: false,
            width: INITIAL_WIDTH,
            height: INITIAL_HEIGHT,
            frame: FrameSlot::Idle,
        }
    }

    /// Whether the dispatch loop should wait for more events.
    pub fn keep_dispatching(&self) -> (r: bool)
        ensures
            r == !self.exit,
    {
        !self.exit
    }

    /// Plans the next frame if the surface may be drawn now; otherwise does nothing.
    pub fn render(&mut self, elapsed_nanos: u128) -> (r: Result<Vec<Action>, ClientError>)
        ensures
            follows(*old(self), *final(self), r, render_spec(*old(self), elapsed_nanos)),
    {
        if !self.mapped || self.exit || !matches!(self.frame, FrameSlot::Idle) {
            return Ok(Vec::new());
        }
        if self.width > u32::MAX / BYTES_PER_PIXEL {
            return Err(ClientError::StrideOutOfRange);
        }
        let plan = FramePlan {
            width: self.width,
            height: self.height,
            stride: self.width * BYTES_PER_PIXEL,
            transform: transform_for(elapsed_nanos),
        };
        self.frame = FrameSlot::Drawing;
        let acts = vec![Action::Draw(plan)];
        assert(acts@ =~= seq![Action::Draw(plan_for(*old(self), elapsed_nanos))]);
        Ok(acts)
    }

    /// Records that the frame notification for the planned frame was requested
    /// under callback id `callback`.
    pub fn frame_requested(&mut self, callback: u32)
        requires
            old(self).frame == FrameSlot::Drawing,
        ensures
            *final(self) == (SurfaceState { frame: FrameSlot::Pending(callback), ..*old(self) }),
    {
        self.frame = FrameSlot::Pending(callback);
    }

    /// Handles one event and returns the actions to perform, in order.
    pub fn handle(&mut self, event: Event, elapsed_nanos: u128) -> (r: Result<
        Vec<Action>,
        ClientError,
    >)
        ensures
            follows(*old(self), *final(self), r, step(*old(self), event, elapsed_nanos)),
    {
        match event {
            Event::SurfaceConfigure { serial } => {
                let mut next = *self;
                next.mapped = true;
                let mut drawn = match next.render(elapsed_nanos) {
                    Ok(drawn) => drawn,
                    Err(err) => {
                        return Err(err);
                    },
                };
                let mut acts = vec![Action::AckConfigure { serial }];
                let ghost drawn_view = drawn@;
                acts.append(&mut drawn);
                assert(acts@ =~= seq![Action::AckConfigure { serial }] + drawn_view);
                *self = next;
                Ok(acts)
            },
            Event::ToplevelConfigure { width, height } => {
                if width < 0 || height < 0 {
                    return Err(ClientError::DimensionOutOfRange);
                }
                if width != 0 {
                    self.width = width as u32;
                }
                if height != 0 {
                    self.height = height as u32;
                }
                Ok(Vec::new())
            },
            Event::ToplevelClose => {
                self.exit = true;
                let acts = vec![Action::StopDispatch];
                assert(acts@ =~= seq![Action::StopDispatch]);
                Ok(acts)
            },
            Event::FrameDone { callback } => {
                let outstanding = match self.frame {
                    FrameSlot::Pending(id) => id == callback,
                    _ => false,
                };
                if !outstanding {
                    return Err(ClientError::UnexpectedFrameCallback);
                }
                let mut next = *self;
                next.frame = FrameSlot::Idle;
                let r = next.render(elapsed_nanos);
                if r.is_ok() {
                    *self = next;
                }
                r
            },
            Event::Other => Ok(Vec::new()),
        }
    }
}

} // verus!
