//! Keyboard input, reduced to the machine's own event vocabulary, and what
//! handling an event asks the surrounding program to do.

use vstd::prelude::*;

verus! {

/// The input events the examples react to, one per bound key: color
/// randomization on the modifier keys, the display-mode toggle, nudges of the
/// mesh parameters, and nudges of the rotation speed. Anything else is
/// `Other`.
#[derive(Clone, Copy, Debug, PartialEq, Eq, Structural)]
pub enum InputEvent {
    /// Randomize the shape's color uniform.
    RandomizeShapeColor,
    /// Randomize the wireframe's color uniform.
    RandomizeWireframeColor,
    /// Cycle the display mode.
    ToggleDisplayMode,
    /// Grow the mesh radius by a tenth of a unit.
    IncreaseRadius,
    /// Shrink the mesh radius by a tenth of a unit.
    DecreaseRadius,
    /// One more segment along the mesh's first grid direction.
    IncreaseUSegments,
    /// One segment fewer along the mesh's first grid direction.
    DecreaseUSegments,
    /// One more segment along the mesh's second grid direction.
    IncreaseVSegments,
    /// One segment fewer along the mesh's second grid direction.
    DecreaseVSegments,
    /// Turn the rotation a tenth faster.
    IncreaseSpeed,
    /// Turn the rotation a tenth slower, stopping at standstill.
    DecreaseSpeed,
    /// A key the machine has no binding for.
    Other,
}

/// The color uniform a consumed randomize event asks the surrounding program
/// to rewrite with three freshly drawn random components. Everything else an
/// event does is a change of the machine's own state.
#[derive(Clone, Copy, Debug, PartialEq, Eq, Structural)]
pub enum ColorTarget {
    /// The shape's color buffer.
    Shape,
    /// The wireframe's color buffer.
    Wireframe,
}

/// What handling one event decided: whether the event was consumed, and
/// which color uniform, if any, the surrounding program must rewrite.
#[derive(Clone, Copy, Debug, PartialEq, Eq)]
pub struct InputResponse {
    pub consumed: bool,
    pub write_color: Option<ColorTarget>,
}

} // verus!
