use render_state::events::{
    after_render, dispatch_window_event, handle_key, FrameOutcome, KeyKind, LoopDirective,
    WindowEventKind,
};
use render_state::geometry::DrawGeometry;
use render_state::state::State;
use render_state::surface::{error_directive, ErrorDirective, Extent, SurfaceError};

fn simple_state() -> State {
    State::new(
        300,
        200,
        1,
        false,
        false,
        DrawGeometry::Arrays { vertex_count: 9 },
        None,
    )
}

#[test]
fn zero_sided_extents_are_not_drawable() {
    assert!(Extent { width: 300, height: 200 }.is_drawable());
    assert!(!Extent { width: 0, height: 200 }.is_drawable());
    assert!(!Extent { width: 300, height: 0 }.is_drawable());
    assert!(!Extent { width: 0, height: 0 }.is_drawable());
}

#[test]
fn lost_surface_reconfigures() {
    assert_eq!(error_directive(SurfaceError::Lost), ErrorDirective::Reconfigure);
}

#[test]
fn outdated_surface_reconfigures() {
    assert_eq!(error_directive(SurfaceError::Outdated), ErrorDirective::Reconfigure);
}

#[test]
fn out_of_memory_exits() {
    assert_eq!(error_directive(SurfaceError::OutOfMemory), ErrorDirective::Exit);
}

#[test]
fn timeout_skips_the_frame() {
    assert_eq!(error_directive(SurfaceError::Timeout), ErrorDirective::SkipFrame);
}

#[test]
fn successful_render_presents() {
    let mut s = simple_state();
    let outcome = after_render(&mut s, Ok(()));
    assert_eq!(outcome, FrameOutcome::Presented);
    assert_eq!(s.size, Extent { width: 300, height: 200 });
}

#[test]
fn lost_surface_reapplies_stored_size() {
    let mut s = simple_state();
    let outcome = after_render(&mut s, Err(SurfaceError::Lost));
    assert_eq!(outcome, FrameOutcome::Reconfigured);
    assert_eq!(s.size, Extent { width: 300, height: 200 });
    assert_eq!(s.config, s.size);
}

#[test]
fn out_of_memory_asks_for_exit() {
    let mut s = simple_state();
    let outcome = after_render(&mut s, Err(SurfaceError::OutOfMemory));
    assert_eq!(outcome, FrameOutcome::Exit);
}

#[test]
fn timeout_drops_the_frame_only() {
    let mut s = simple_state();
    let before = s.size;
    let outcome = after_render(&mut s, Err(SurfaceError::Timeout));
    assert_eq!(outcome, FrameOutcome::Skipped);
    assert_eq!(s.size, before);
}

#[test]
fn close_request_exits() {
    assert_eq!(
        dispatch_window_event(WindowEventKind::CloseRequested),
        LoopDirective::Exit
    );
}

#[test]
fn escape_key_exits() {
    assert_eq!(
        dispatch_window_event(WindowEventKind::KeyPressed { key: KeyKind::Escape }),
        LoopDirective::Exit
    );
    assert!(handle_key(KeyKind::Escape, true));
    assert!(!handle_key(KeyKind::Escape, false));
    assert!(!handle_key(KeyKind::Other, true));
}

#[test]
fn resize_event_hands_over_the_size() {
    assert_eq!(
        dispatch_window_event(WindowEventKind::Resized { width: 640, height: 480 }),
        LoopDirective::Resize { width: 640, height: 480 }
    );
}

#[test]
fn redraw_event_runs_a_frame() {
    assert_eq!(
        dispatch_window_event(WindowEventKind::RedrawRequested),
        LoopDirective::RedrawFrame
    );
}

#[test]
fn other_events_are_ignored() {
    assert_eq!(
        dispatch_window_event(WindowEventKind::Other),
        LoopDirective::Ignore
    );
    assert_eq!(
        dispatch_window_event(WindowEventKind::KeyPressed { key: KeyKind::Other }),
        LoopDirective::Ignore
    );
}
