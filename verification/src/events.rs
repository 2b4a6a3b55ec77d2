//! Decisions of the window-event loop: what each event asks of the program,
//! and how a frame ends.

use vstd::prelude::*;

use crate::state::State;
use crate::surface::{spec_error_directive, ErrorDirective, SurfaceError};

verus! {

/// Keys the loop itself is bound to, apart from the per-machine bindings
/// that arrive as input events.
#[derive(Clone, Copy, Debug, PartialEq, Eq, Structural)]
pub enum KeyKind {
    /// Closes the window.
    Escape,
    /// Any other key.
    Other,
}

/// The window events the loop reacts to, reduced to their plain content.
#[derive(Clone, Copy, Debug, PartialEq, Eq, Structural)]
pub enum WindowEventKind {
    /// The window asked to close.
    CloseRequested,
    /// A key went down.
    KeyPressed { key: KeyKind },
    /// The window took a new size.
    Resized { width: u32, height: u32 },
    /// The windowing system asked for a frame.
    RedrawRequested,
    /// Anything else.
    Other,
}

/// What the loop must do for one window event.
#[derive(Clone, Copy, Debug, PartialEq, Eq, Structural)]
pub enum LoopDirective {
    /// Terminate the event loop.
    Exit,
    /// Hand the new size to the state's resize call.
    Resize { width: u32, height: u32 },
    /// Run the per-frame update and render sequence.
    RedrawFrame,
    /// Nothing.
    Ignore,
}

/// The loop's reaction to each window event: close requests and the escape
/// key end the program, a new size is handed to resize, a redraw request
/// runs a frame, and everything else is ignored.
pub open spec fn spec_dispatch(event: WindowEventKind) -> LoopDirective {
    match event {
        WindowEventKind::CloseRequested => LoopDirective::Exit,
        WindowEventKind::KeyPressed { key } => if key == KeyKind::Escape {
            LoopDirective::Exit
        } else {
            LoopDirective::Ignore
        },
        WindowEventKind::Resized { width, height } => LoopDirective::Resize { width, height },
        WindowEventKind::RedrawRequested => LoopDirective::RedrawFrame,
        WindowEventKind::Other => LoopDirective::Ignore,
    }
}

/// Decides what one window event asks of the loop. Events the state machine
/// consumed as input must not be passed here.
pub fn dispatch_window_event(event: WindowEventKind) -> (r: LoopDirective)
    ensures
        r == spec_dispatch(event),
{
    match event {
        WindowEventKind::CloseRequested => LoopDirective::Exit,
        WindowEventKind::KeyPressed { key } => {
            if key == KeyKind::Escape {
                LoopDirective::Exit
            } else {
                LoopDirective::Ignore
            }
        },
        WindowEventKind::Resized { width, height } => LoopDirective::Resize { width, height },
        WindowEventKind::RedrawRequested => LoopDirective::RedrawFrame,
        WindowEventKind::Other => LoopDirective::Ignore,
    }
}

/// Whether a key event ends the program: only the escape key going down
/// does.
pub fn handle_key(key: KeyKind, pressed: bool) -> (exit: bool)
    ensures
        exit == (key == KeyKind::Escape && pressed),
{
    match (key, pressed) {
        (KeyKind::Escape, true) => true,
        _ => false,
    }
}

/// How a frame ended, once the render call's result is folded back into the
/// machine.
#[derive(Clone, Copy, Debug, PartialEq, Eq, Structural)]
pub enum FrameOutcome {
    /// The frame was drawn and presented.
    Presented,
    /// The surface was lost or outdated; the machine re-applied its stored
    /// size, and the program must reconfigure the surface to it and retry on
    /// the next frame.
    Reconfigured,
    /// Allocation failed; the program must terminate the event loop.
    Exit,
    /// The frame took too long and was dropped; go on to the next one.
    Skipped,
}

/// Folds a render call's result back into the machine: success and timeouts
/// leave it untouched, a lost or outdated surface makes it re-apply its
/// stored size for the reconfigure-and-retry on the next frame, and
/// out-of-memory asks for termination. No error crosses past this call.
pub fn after_render(state: &mut State, result: Result<(), SurfaceError>) -> (r: FrameOutcome)
    requires
        old(state).wf(),
    ensures
        final(state).wf(),
        (result matches Ok(_)) ==> r == FrameOutcome::Presented && *final(state) == *old(
            state,
        ),
        (result matches Err(e) ==> match spec_error_directive(e) {
            ErrorDirective::Reconfigure => r == FrameOutcome::Reconfigured && *final(state)
                == State::spec_resized(
                *old(state),
                old(state).size.width,
                old(state).size.height,
            ),
            ErrorDirective::Exit => r == FrameOutcome::Exit && *final(state) == *old(state),
            ErrorDirective::SkipFrame => r == FrameOutcome::Skipped && *final(state) == *old(
                state,
            ),
        }),
{
    match result {
        Ok(_) => FrameOutcome::Presented,
        Err(e) => {
            match crate::surface::error_directive(e) {
                ErrorDirective::Reconfigure => {
                    let width = state.size.width;
                    let height = state.size.height;
                    state.resize(width, height);
                    FrameOutcome::Reconfigured
                },
                ErrorDirective::Exit => FrameOutcome::Exit,
                ErrorDirective::SkipFrame => FrameOutcome::Skipped,
            }
        },
    }
}

} // verus!
