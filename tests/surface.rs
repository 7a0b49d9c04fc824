use frame_paced_client::canvas::{fill_canvas, BOTTOM_BYTE, TOP_BYTE};
use frame_paced_client::surface::{
    transform_for, Action, ClientError, Event, FramePlan, FrameSlot, SurfaceState, Transform,
};

fn plan(width: u32, height: u32, transform: Transform) -> Action {
    Action::Draw(FramePlan { width, height, stride: width * 4, transform })
}

fn mapped_and_pending(callback: u32) -> SurfaceState {
    let mut s = SurfaceState::new();
    let acts = s.handle(Event::SurfaceConfigure { serial: 1 }, 0).unwrap();
    assert_eq!(acts.len(), 2);
    s.frame_requested(callback);
    s
}

#[test]
fn fresh_state_is_unmapped_and_idle() {
    let s = SurfaceState::new();
    assert!(!s.mapped);
    assert!(!s.exit);
    assert_eq!(s.width, 500);
    assert_eq!(s.height, 500);
    assert_eq!(s.frame, FrameSlot::Idle);
    assert!(s.keep_dispatching());
}

#[test]
fn render_before_mapping_does_nothing() {
    let mut s = SurfaceState::new();
    let before = s;
    assert_eq!(s.render(0), Ok(vec![]));
    assert_eq!(s, before);
}

#[test]
fn render_with_frame_pending_does_nothing() {
    let mut s = mapped_and_pending(9);
    let before = s;
    assert_eq!(s.render(0), Ok(vec![]));
    assert_eq!(s, before);
}

#[test]
fn render_while_drawing_does_nothing() {
    let mut s = SurfaceState::new();
    s.handle(Event::SurfaceConfigure { serial: 1 }, 0).unwrap();
    assert_eq!(s.frame, FrameSlot::Drawing);
    assert_eq!(s.render(0), Ok(vec![]));
    assert_eq!(s.frame, FrameSlot::Drawing);
}

#[test]
fn configure_acknowledges_then_draws() {
    let mut s = SurfaceState::new();
    let acts = s.handle(Event::SurfaceConfigure { serial: 42 }, 100).unwrap();
    assert_eq!(
        acts,
        vec![Action::AckConfigure { serial: 42 }, plan(500, 500, Transform::Normal)]
    );
    assert!(s.mapped);
    assert_eq!(s.frame, FrameSlot::Drawing);
}

#[test]
fn second_configure_only_acknowledges_while_frame_pending() {
    let mut s = mapped_and_pending(5);
    let acts = s.handle(Event::SurfaceConfigure { serial: 43 }, 0).unwrap();
    assert_eq!(acts, vec![Action::AckConfigure { serial: 43 }]);
    assert_eq!(s.frame, FrameSlot::Pending(5));
}

#[test]
fn frame_done_clears_and_draws_next_frame() {
    let mut s = mapped_and_pending(5);
    let acts = s.handle(Event::FrameDone { callback: 5 }, 1_700_000_000).unwrap();
    assert_eq!(acts, vec![plan(500, 500, Transform::Flipped180)]);
    assert_eq!(s.frame, FrameSlot::Drawing);
    s.frame_requested(6);
    assert_eq!(s.frame, FrameSlot::Pending(6));
}

#[test]
fn frame_done_for_stale_callback_fails() {
    let mut s = mapped_and_pending(5);
    let before = s;
    assert_eq!(
        s.handle(Event::FrameDone { callback: 4 }, 0),
        Err(ClientError::UnexpectedFrameCallback)
    );
    assert_eq!(s, before);
}

#[test]
fn frame_done_without_request_fails() {
    let mut s = SurfaceState::new();
    assert_eq!(
        s.handle(Event::FrameDone { callback: 1 }, 0),
        Err(ClientError::UnexpectedFrameCallback)
    );
}

#[test]
fn resize_height_only_keeps_width_and_pending_frame() {
    let mut s = mapped_and_pending(7);
    let acts = s.handle(Event::ToplevelConfigure { width: 0, height: 300 }, 0).unwrap();
    assert!(acts.is_empty());
    assert_eq!(s.width, 500);
    assert_eq!(s.height, 300);
    assert_eq!(s.frame, FrameSlot::Pending(7));
    assert!(s.mapped);
}

#[test]
fn resize_is_used_by_next_frame() {
    let mut s = mapped_and_pending(7);
    s.handle(Event::ToplevelConfigure { width: 800, height: 600 }, 0).unwrap();
    let acts = s.handle(Event::FrameDone { callback: 7 }, 0).unwrap();
    assert_eq!(acts, vec![plan(800, 600, Transform::Normal)]);
}

#[test]
fn resize_zero_zero_changes_nothing() {
    let mut s = SurfaceState::new();
    let before = s;
    assert_eq!(s.handle(Event::ToplevelConfigure { width: 0, height: 0 }, 0), Ok(vec![]));
    assert_eq!(s, before);
}

#[test]
fn negative_dimension_is_rejected() {
    let mut s = SurfaceState::new();
    let before = s;
    assert_eq!(
        s.handle(Event::ToplevelConfigure { width: 10, height: -1 }, 0),
        Err(ClientError::DimensionOutOfRange)
    );
    assert_eq!(s, before);
}

#[test]
fn oversized_width_fails_at_render() {
    let mut s = SurfaceState::new();
    s.handle(Event::ToplevelConfigure { width: 1 << 30, height: 1 }, 0).unwrap();
    let before = s;
    assert_eq!(
        s.handle(Event::SurfaceConfigure { serial: 1 }, 0),
        Err(ClientError::StrideOutOfRange)
    );
    assert_eq!(s, before);
}

#[test]
fn largest_width_with_representable_stride_draws() {
    let mut s = SurfaceState::new();
    s.handle(Event::ToplevelConfigure { width: (1 << 30) - 1, height: 1 }, 0).unwrap();
    let acts = s.handle(Event::SurfaceConfigure { serial: 1 }, 0).unwrap();
    assert_eq!(acts[1], plan((1 << 30) - 1, 1, Transform::Normal));
    if let Action::Draw(p) = acts[1] {
        assert_eq!(p.stride, 4_294_967_292);
    }
}

#[test]
fn close_stops_dispatch_even_with_frame_pending() {
    let mut s = mapped_and_pending(3);
    let acts = s.handle(Event::ToplevelClose, 0).unwrap();
    assert_eq!(acts, vec![Action::StopDispatch]);
    assert!(s.exit);
    assert!(!s.keep_dispatching());
    assert_eq!(s.frame, FrameSlot::Pending(3));
}

#[test]
fn no_frame_is_drawn_after_close() {
    let mut s = mapped_and_pending(3);
    s.handle(Event::ToplevelClose, 0).unwrap();
    assert_eq!(s.handle(Event::FrameDone { callback: 3 }, 0), Ok(vec![]));
    assert_eq!(
        s.handle(Event::SurfaceConfigure { serial: 2 }, 0),
        Ok(vec![Action::AckConfigure { serial: 2 }])
    );
    assert!(!s.keep_dispatching());
}

#[test]
fn other_events_are_ignored() {
    let mut s = mapped_and_pending(3);
    let before = s;
    assert_eq!(s.handle(Event::Other, 0), Ok(vec![]));
    assert_eq!(s, before);
}

#[test]
fn transform_follows_half_seconds() {
    assert_eq!(transform_for(0), Transform::Normal);
    assert_eq!(transform_for(499_999_999), Transform::Normal);
    assert_eq!(transform_for(500_000_000), Transform::Flipped180);
    assert_eq!(transform_for(999_999_999), Transform::Flipped180);
    assert_eq!(transform_for(1_000_000_000), Transform::Normal);
    assert_eq!(transform_for(7_600_000_000), Transform::Flipped180);
}

#[test]
fn fill_500_by_500_splits_in_half() {
    let mut canvas = vec![0u8; 2000 * 500];
    fill_canvas(&mut canvas, 500, 500);
    assert!(canvas[..500_000].iter().all(|&b| b == 255));
    assert!(canvas[500_000..].iter().all(|&b| b == 100));
}

#[test]
fn fill_small_canvas() {
    let mut canvas = vec![7u8; 1 * 3 * 4];
    fill_canvas(&mut canvas, 1, 3);
    assert_eq!(canvas, vec![255, 255, 255, 255, 255, 255, 100, 100, 100, 100, 100, 100]);
    assert_eq!(TOP_BYTE, 255);
    assert_eq!(BOTTOM_BYTE, 100);
}

#[test]
fn fill_empty_canvas() {
    let mut canvas: Vec<u8> = vec![];
    fill_canvas(&mut canvas, 0, 10);
    assert!(canvas.is_empty());
}
