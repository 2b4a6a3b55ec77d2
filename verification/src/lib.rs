//! Model of the per-frame render loop that window-driven GPU programs share:
//! a state object owning a drawable surface, pipelines and geometry buffers,
//! driven by resize, keyboard input, per-frame update and render calls.
//!
//! The machine here keeps the bookkeeping that those calls depend on — viewport
//! and surface dimensions, size-derived attachments, display mode, rotation
//! speed, mesh parameters and dirty flags — as plain values with proved
//! contracts. The surrounding program performs the window, GPU and
//! floating-point work and feeds the results back in as plain values.
//!
//! [`state`] holds the machine itself; [`input`], [`frame`], [`surface`],
//! [`geometry`] and [`display`] its vocabulary of events, plans, extents,
//! meshes and modes; [`events`] the event loop's own decisions; [`cli`] what
//! is decided from the command line before the window opens.

pub mod cli;
pub mod display;
pub mod events;
pub mod frame;
pub mod geometry;
pub mod input;
pub mod state;
pub mod surface;

use vstd::prelude::*;

verus! {

} // verus!
