//! Properties of the state machine, over single steps and over whole sessions.

use vstd::prelude::*;
use crate::surface::{
    initial_state, render_spec, resized, step, Action, ClientError, Event, FrameSlot,
    SurfaceState,
};

verus! {

/// One thing that happens to the state in a session: an event handled at some
/// moment, or the caller reporting the frame notification it requested.
pub enum Input {
    Event { event: Event, elapsed_nanos: u128 },
    FrameRequested { callback: u32 },
}

pub open spec fn is_draw(a: Action) -> bool {
    a is Draw
}

pub open spec fn is_ack(a: Action) -> bool {
    a is AckConfigure
}

/// Some action of `acts` draws a frame.
pub open spec fn draws(acts: Seq<Action>) -> bool {
    exists|i: int| 0 <= i < acts.len() && is_draw(#[trigger] acts[i])
}

/// The state after `inputs`, starting from `s`, as long as every step succeeds
/// and every reported frame request was due; the session stops at the first
/// input that fails.
pub open spec fn run_state(s: SurfaceState, inputs: Seq<Input>) -> SurfaceState
    decreases inputs.len(),
{
    if inputs.len() == 0 {
        s
    } else {
        match inputs[0] {
            Input::Event { event, elapsed_nanos } => match step(s, event, elapsed_nanos) {
                Ok((next, _acts)) => run_state(next, inputs.drop_first()),
                Err(_) => s,
            },
            Input::FrameRequested { callback } => if s.frame == FrameSlot::Drawing {
                run_state(
                    SurfaceState { frame: FrameSlot::Pending(callback), ..s },
                    inputs.drop_first(),
                )
            } else {
                s
            },
        }
    }
}

/// Every action performed over `inputs`, starting from `s`, in order; the
/// session stops at the first input that fails.
pub open spec fn run(s: SurfaceState, inputs: Seq<Input>) -> Seq<Action>
    decreases inputs.len(),
{
    if inputs.len() == 0 {
        seq![]
    } else {
        match inputs[0] {
            Input::Event { event, elapsed_nanos } => match step(s, event, elapsed_nanos) {
                Ok((next, acts)) => acts + run(next, inputs.drop_first()),
                Err(_) => seq![],
            },
            Input::FrameRequested { callback } => if s.frame == FrameSlot::Drawing {
                run(SurfaceState { frame: FrameSlot::Pending(callback), ..s }, inputs.drop_first())
            } else {
                seq![]
            },
        }
    }
}

/// A render on a surface that is not mapped, or that has a frame in flight,
/// leaves the state as it is and asks for no buffer and no commit.
pub proof fn lemma_blocked_render_is_noop(s: SurfaceState, elapsed_nanos: u128)
    requires
        !s.mapped || s.frame != FrameSlot::Idle,
    ensures
        render_spec(s, elapsed_nanos) == Ok::<(SurfaceState, Seq<Action>), ClientError>(
            (s, seq![]),
        ),
{
}

/// At most one frame is in flight. A step draws at most one frame, and only
/// when no notification is outstanding, or when the event is the notification
/// of the one outstanding callback; after drawing, the state waits for the new
/// request. An outstanding callback stays recorded until its own notification
/// arrives, and a planned frame stays planned until its request is reported.
pub proof fn lemma_single_outstanding_frame(s: SurfaceState, e: Event, elapsed_nanos: u128)
    ensures
        step(s, e, elapsed_nanos) matches Ok((next, acts)) ==> {
            &&& forall|i: int, j: int|
                0 <= i < acts.len() && 0 <= j < acts.len() && is_draw(#[trigger] acts[i])
                    && is_draw(#[trigger] acts[j]) ==> i == j
            &&& draws(acts) ==> next.frame == FrameSlot::Drawing && (s.frame == FrameSlot::Idle
                || (s.frame is Pending && e == Event::FrameDone {
                callback: s.frame->Pending_0,
            }))
            &&& (s.frame is Pending && e != Event::FrameDone { callback: s.frame->Pending_0 })
                ==> next.frame == s.frame
            &&& s.frame == FrameSlot::Drawing ==> next.frame == FrameSlot::Drawing
        },
{
}

/// A size proposal with non-negative components changes only the proposed
/// nonzero dimensions: a zero component keeps its dimension, and mapping, the
/// exit flag and the frame in flight are untouched. Nothing is drawn.
pub proof fn lemma_resize_keeps_frame(s: SurfaceState, width: i32, height: i32, elapsed_nanos: u128)
    requires
        width >= 0,
        height >= 0,
    ensures
        step(s, Event::ToplevelConfigure { width, height }, elapsed_nanos) == Ok::<
            (SurfaceState, Seq<Action>),
            ClientError,
        >(
            (
                SurfaceState {
                    width: resized(s.width, width),
                    height: resized(s.height, height),
                    ..s
                },
                seq![],
            ),
        ),
        width == 0 ==> resized(s.width, width) == s.width,
        height == 0 ==> resized(s.height, height) == s.height,
        height > 0 ==> resized(s.height, height) == height,
{
}

/// A close event sets the exit flag and stops dispatching, whatever frame is
/// in flight.
pub proof fn lemma_close_stops_dispatch(s: SurfaceState, elapsed_nanos: u128)
    ensures
        step(s, Event::ToplevelClose, elapsed_nanos) == Ok::<(SurfaceState, Seq<Action>), ClientError>(
            (SurfaceState { exit: true, ..s }, seq![Action::StopDispatch]),
        ),
{
}

/// Once the exit flag is set, no step clears it and none draws.
pub proof fn lemma_exit_is_final(s: SurfaceState, e: Event, elapsed_nanos: u128)
    requires
        s.exit,
    ensures
        step(s, e, elapsed_nanos) matches Ok((next, acts)) ==> next.exit && !draws(acts),
{
}

/// After a close, the rest of the session draws nothing and the exit flag
/// stays set, so the dispatch loop never waits again.
pub proof fn lemma_closed_session_never_draws(s: SurfaceState, inputs: Seq<Input>)
    requires
        s.exit,
    ensures
        !draws(run(s, inputs)),
        run_state(s, inputs).exit,
    decreases inputs.len(),
{
    if inputs.len() > 0 {
        let rest = inputs.drop_first();
        match inputs[0] {
            Input::Event { event, elapsed_nanos } => {
                lemma_exit_is_final(s, event, elapsed_nanos);
                if let Ok((next, acts)) = step(s, event, elapsed_nanos) {
                    lemma_closed_session_never_draws(next, rest);
                    let all = run(s, inputs);
                    let tail = run(next, rest);
                    assert(all == acts + tail);
                    assert forall|i: int| 0 <= i < all.len() implies !is_draw(#[trigger] all[i]) by {
                        if i < acts.len() {
                            assert(all[i] == acts[i]);
                        } else {
                            assert(all[i] == tail[i - acts.len()]);
                        }
                    }
                }
            },
            Input::FrameRequested { callback } => {
                if s.frame == FrameSlot::Drawing {
                    lemma_closed_session_never_draws(
                        SurfaceState { frame: FrameSlot::Pending(callback), ..s },
                        rest,
                    );
                }
            },
        }
    }
}

/// Every drawn action of `acts` comes after an acknowledgment of a surface
/// configuration.
pub open spec fn acked_before_every_draw(acts: Seq<Action>) -> bool {
    forall|i: int|
        0 <= i < acts.len() && is_draw(#[trigger] acts[i]) ==> exists|j: int|
            0 <= j < i && is_ack(#[trigger] acts[j])
}

proof fn lemma_unmapped_session_acks_first(s: SurfaceState, inputs: Seq<Input>)
    requires
        !s.mapped,
    ensures
        acked_before_every_draw(run(s, inputs)),
    decreases inputs.len(),
{
    if inputs.len() > 0 {
        let rest = inputs.drop_first();
        let all = run(s, inputs);
        match inputs[0] {
            Input::Event { event, elapsed_nanos } => {
                if let Ok((next, acts)) = step(s, event, elapsed_nanos) {
                    let tail = run(next, rest);
                    assert(all == acts + tail);
                    if event is SurfaceConfigure {
                        assert(is_ack(all[0]));
                    } else {
                        assert(!next.mapped);
                        assert(!draws(acts));
                        lemma_unmapped_session_acks_first(next, rest);
                        assert forall|i: int|
                            0 <= i < all.len() && is_draw(#[trigger] all[i]) implies exists|j: int|
                            0 <= j < i && is_ack(#[trigger] all[j]) by {
                            if i < acts.len() {
                                assert(all[i] == acts[i]);
                            } else {
                                let k = i - acts.len();
                                assert(all[i] == tail[k]);
                                let j = choose|j: int| 0 <= j < k && is_ack(#[trigger] tail[j]);
                                assert(all[j + acts.len()] == tail[j]);
                            }
                        }
                    }
                }
            },
            Input::FrameRequested { callback } => {
                if s.frame == FrameSlot::Drawing {
                    lemma_unmapped_session_acks_first(
                        SurfaceState { frame: FrameSlot::Pending(callback), ..s },
                        rest,
                    );
                }
            },
        }
    }
}

/// In any session from a fresh surface, no frame is drawn before a surface
/// configuration has been acknowledged.
pub proof fn lemma_ack_precedes_first_draw(inputs: Seq<Input>)
    ensures
        acked_before_every_draw(run(initial_state(), inputs)),
{
    lemma_unmapped_session_acks_first(initial_state(), inputs);
}

} // verus!
