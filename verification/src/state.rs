//! The per-frame render state machine: one value holding everything the
//! event loop's resize, input, update and render calls decide on.

use vstd::prelude::*;

use crate::display::{
    spec_speed_decreased, spec_speed_increased, spec_toggled, MODE_BOTH, MODE_COUNT,
    MODE_SHAPE_ONLY, MODE_WIREFRAME_ONLY,
};
use crate::frame::{ColorAttachmentKind, DrawCall, FramePlan};
use crate::geometry::{DrawGeometry, MeshParams};
use crate::input::{ColorTarget, InputEvent, InputResponse};
use crate::surface::Extent;

verus! {

/// Rotation speed a fresh state starts with: one unit, in tenths.
pub const INITIAL_SPEED_TENTHS: u32 = 10;

/// The state a render loop owns, reduced to the plain values its decisions
/// read and write. The surface, device, pipelines and buffers themselves live
/// outside; this value says what they must look like.
#[derive(Clone, Copy, Debug)]
pub struct State {
    /// Last observed window size.
    pub size: Extent,
    /// Extent the surface is configured with.
    pub config: Extent,
    /// Viewport the projection matrix was last derived from.
    pub projection: Extent,
    /// Samples per pixel; 1 means no multisampling.
    pub sample_count: u32,
    /// Whether a depth attachment exists.
    pub depth_enabled: bool,
    /// Extent of the depth attachment, where one exists.
    pub depth_target: Extent,
    /// Extent of the multisample target, where `sample_count > 1`.
    pub msaa_target: Extent,
    /// What the geometry buffers hold and how they are drawn.
    pub geometry: DrawGeometry,
    /// Display-mode code, always below `MODE_COUNT`.
    pub plot_type: u32,
    /// Whether a rotation uniform is rewritten every frame.
    pub animated: bool,
    /// Rotation speed in tenths of a unit.
    pub rotation_speed_tenths: u32,
    /// Parameters of the regenerable procedural mesh, where one exists.
    pub mesh: Option<MeshParams>,
    /// Mesh parameters changed without changing element counts: rewrite the
    /// vertex buffer in place at the next update.
    pub update_buffers: bool,
    /// Mesh resolution changed: destroy and recreate the geometry buffers at
    /// the next update.
    pub recreate_buffers: bool,
}

/// Work one update call hands to the surrounding program, in order: refresh
/// the rotation uniform, rewrite the vertex buffer in place, destroy and
/// recreate the geometry buffers.
#[derive(Clone, Copy, Debug, PartialEq, Eq)]
pub struct UpdateActions {
    /// Recompute the time-dependent transform and write it into the existing
    /// uniform buffer.
    pub write_rotation_uniform: bool,
    /// Regenerate the mesh with these parameters and rewrite the vertex
    /// buffer contents in place, sizes unchanged.
    pub rewrite: Option<MeshParams>,
    /// Regenerate the mesh with these parameters, then destroy and recreate
    /// the vertex and index buffers at their new sizes.
    pub recreate: Option<MeshParams>,
}

impl State {
    /// The surface configuration and every size-derived attachment agree
    /// with the last observed window size.
    pub open spec fn attachments_consistent(self) -> bool {
        &&& self.config == self.size
        &&& self.projection == self.size
        &&& self.depth_enabled ==> self.depth_target == self.size
        &&& self.sample_count > 1 ==> self.msaa_target == self.size
    }

    /// Well-formedness every operation preserves: a drawable stored size, a
    /// positive sample count, a display mode inside the cycle, consistent
    /// attachments, and dirty flags only where a regenerable mesh exists.
    pub open spec fn wf(self) -> bool {
        &&& self.size.spec_is_drawable()
        &&& self.sample_count >= 1
        &&& self.plot_type < MODE_COUNT
        &&& self.attachments_consistent()
        &&& (self.update_buffers || self.recreate_buffers) ==> self.mesh is Some
    }

    /// Builds the state a program starts its loop with: everything sized to
    /// the window, display mode showing everything, rotation at one unit,
    /// nothing dirty.
    pub fn new(
        width: u32,
        height: u32,
        sample_count: u32,
        depth_enabled: bool,
        animated: bool,
        geometry: DrawGeometry,
        mesh: Option<MeshParams>,
    ) -> (r: State)
        requires
            width > 0,
            height > 0,
            sample_count >= 1,
        ensures
            r == (State {
                size: Extent { width, height },
                config: Extent { width, height },
                projection: Extent { width, height },
                sample_count,
                depth_enabled,
                depth_target: Extent { width, height },
                msaa_target: Extent { width, height },
                geometry,
                plot_type: MODE_BOTH,
                animated,
                rotation_speed_tenths: INITIAL_SPEED_TENTHS,
                mesh,
                update_buffers: false,
                recreate_buffers: false,
            }),
            r.wf(),
    {
        let extent = Extent { width, height };
        State {
            size: extent,
            config: extent,
            projection: extent,
            sample_count,
            depth_enabled,
            depth_target: extent,
            msaa_target: extent,
            geometry,
            plot_type: MODE_BOTH,
            animated,
            rotation_speed_tenths: INITIAL_SPEED_TENTHS,
            mesh,
            update_buffers: false,
            recreate_buffers: false,
        }
    }

    /// Last observed window size.
    pub fn size(&self) -> (r: Extent)
        ensures
            r == self.size,
    {
        self.size
    }

    /// The state a resize call leaves behind: with both dimensions non-zero,
    /// the stored size, the surface configuration, the projection source and
    /// the existing size-derived attachments all move to the new size; a zero
    /// dimension means a minimized window and changes nothing.
    pub open spec fn spec_resized(s: State, width: u32, height: u32) -> State {
        let new_size = Extent { width, height };
        if new_size.spec_is_drawable() {
            State {
                size: new_size,
                config: new_size,
                projection: new_size,
                depth_target: if s.depth_enabled {
                    new_size
                } else {
                    s.depth_target
                },
                msaa_target: if s.sample_count > 1 {
                    new_size
                } else {
                    s.msaa_target
                },
                ..s
            }
        } else {
            s
        }
    }

    /// Reconfigures for a new window size, regenerating whatever is derived
    /// from it; a zero dimension is a no-op.
    pub fn resize(&mut self, width: u32, height: u32)
        requires
            old(self).wf(),
        ensures
            *final(self) == State::spec_resized(*old(self), width, height),
            final(self).wf(),
            width == 0 || height == 0 ==> *final(self) == *old(self),
    {
        if width > 0 && height > 0 {
            let new_size = Extent { width, height };
            self.size = new_size;
            self.config = new_size;
            self.projection = new_size;
            if self.depth_enabled {
                self.depth_target = new_size;
            }
            if self.sample_count > 1 {
                self.msaa_target = new_size;
            }
        }
    }

    /// Whether the machine can take this event without running a parameter
    /// into the end of its integer range. Every bound below is a machine
    /// limit, not a policy: the radius and segment steps are fixed at one.
    pub open spec fn spec_input_admissible(s: State, event: InputEvent) -> bool {
        match event {
            InputEvent::IncreaseRadius => s.mesh matches Some(m) ==> m.radius_tenths
                < i32::MAX,
            InputEvent::DecreaseRadius => s.mesh matches Some(m) ==> m.radius_tenths
                > i32::MIN,
            InputEvent::IncreaseUSegments => s.mesh matches Some(m) ==> m.u_segments
                < u16::MAX,
            InputEvent::DecreaseUSegments => s.mesh matches Some(m) ==> m.u_segments > 0,
            InputEvent::IncreaseVSegments => s.mesh matches Some(m) ==> m.v_segments
                < u16::MAX,
            InputEvent::DecreaseVSegments => s.mesh matches Some(m) ==> m.v_segments > 0,
            _ => true,
        }
    }

    /// The state and response one input event produces. Color randomization
    /// and the display-mode toggle answer only where a wireframe companion
    /// (and with it the pair of color uniforms) exists; speed nudges answer
    /// only on an animated scene; mesh nudges answer only where a regenerable
    /// mesh exists, and set the dirty flag that defers the buffer work to the
    /// next update. Everything else is not consumed.
    pub open spec fn spec_input(s: State, event: InputEvent) -> (State, InputResponse) {
        let consumed = InputResponse { consumed: true, write_color: None };
        let ignored = InputResponse { consumed: false, write_color: None };
        match event {
            InputEvent::RandomizeShapeColor => if s.geometry.spec_has_wireframe() {
                (s, InputResponse { consumed: true, write_color: Some(ColorTarget::Shape) })
            } else {
                (s, ignored)
            },
            InputEvent::RandomizeWireframeColor => if s.geometry.spec_has_wireframe() {
                (
                    s,
                    InputResponse {
                        consumed: true,
                        write_color: Some(ColorTarget::Wireframe),
                    },
                )
            } else {
                (s, ignored)
            },
            InputEvent::ToggleDisplayMode => if s.geometry.spec_has_wireframe() {
                (State { plot_type: spec_toggled(s.plot_type), ..s }, consumed)
            } else {
                (s, ignored)
            },
            InputEvent::IncreaseSpeed => if s.animated {
                (
                    State {
                        rotation_speed_tenths: spec_speed_increased(s.rotation_speed_tenths),
                        ..s
                    },
                    consumed,
                )
            } else {
                (s, ignored)
            },
            InputEvent::DecreaseSpeed => if s.animated {
                (
                    State {
                        rotation_speed_tenths: spec_speed_decreased(s.rotation_speed_tenths),
                        ..s
                    },
                    consumed,
                )
            } else {
                (s, ignored)
            },
            InputEvent::IncreaseRadius => match s.mesh {
                Some(m) => (
                    State {
                        mesh: Some(
                            MeshParams {
                                radius_tenths: (m.radius_tenths + 1) as i32,
                                ..m
                            },
                        ),
                        update_buffers: true,
                        ..s
                    },
                    consumed,
                ),
                None => (s, ignored),
            },
            InputEvent::DecreaseRadius => match s.mesh {
                Some(m) => (
                    State {
                        mesh: Some(
                            MeshParams {
                                radius_tenths: (m.radius_tenths - 1) as i32,
                                ..m
                            },
                        ),
                        update_buffers: true,
                        ..s
                    },
                    consumed,
                ),
                None => (s, ignored),
            },
            InputEvent::IncreaseUSegments => match s.mesh {
                Some(m) => (
                    State {
                        mesh: Some(MeshParams { u_segments: (m.u_segments + 1) as u16, ..m }),
                        recreate_buffers: true,
                        ..s
                    },
                    consumed,
                ),
                None => (s, ignored),
            },
            InputEvent::DecreaseUSegments => match s.mesh {
                Some(m) => (
                    State {
                        mesh: Some(MeshParams { u_segments: (m.u_segments - 1) as u16, ..m }),
                        recreate_buffers: true,
                        ..s
                    },
                    consumed,
                ),
                None => (s, ignored),
            },
            InputEvent::IncreaseVSegments => match s.mesh {
                Some(m) => (
                    State {
                        mesh: Some(MeshParams { v_segments: (m.v_segments + 1) as u16, ..m }),
                        recreate_buffers: true,
                        ..s
                    },
                    consumed,
                ),
                None => (s, ignored),
            },
            InputEvent::DecreaseVSegments => match s.mesh {
                Some(m) => (
                    State {
                        mesh: Some(MeshParams { v_segments: (m.v_segments - 1) as u16, ..m }),
                        recreate_buffers: true,
                        ..s
                    },
                    consumed,
                ),
                None => (s, ignored),
            },
            InputEvent::Other => (s, ignored),
        }
    }

    /// Takes one input event, reports whether it was consumed and what the
    /// surrounding program must perform for it.
    pub fn input(&mut self, event: InputEvent) -> (r: InputResponse)
        requires
            old(self).wf(),
            State::spec_input_admissible(*old(self), event),
        ensures
            *final(self) == State::spec_input(*old(self), event).0,
            r == State::spec_input(*old(self), event).1,
            final(self).wf(),
    {
        let consumed = InputResponse { consumed: true, write_color: None };
        let ignored = InputResponse { consumed: false, write_color: None };
        match event {
            InputEvent::RandomizeShapeColor => {
                if self.geometry.has_wireframe() {
                    InputResponse { consumed: true, write_color: Some(ColorTarget::Shape) }
                } else {
                    ignored
                }
            },
            InputEvent::RandomizeWireframeColor => {
                if self.geometry.has_wireframe() {
                    InputResponse { consumed: true, write_color: Some(ColorTarget::Wireframe) }
                } else {
                    ignored
                }
            },
            InputEvent::ToggleDisplayMode => {
                if self.geometry.has_wireframe() {
                    self.plot_type = crate::display::toggled(self.plot_type);
                    consumed
                } else {
                    ignored
                }
            },
            InputEvent::IncreaseSpeed => {
                if self.animated {
                    if self.rotation_speed_tenths < u32::MAX {
                        self.rotation_speed_tenths = self.rotation_speed_tenths + 1;
                    }
                    consumed
                } else {
                    ignored
                }
            },
            InputEvent::DecreaseSpeed => {
                if self.animated {
                    if self.rotation_speed_tenths >= 1 {
                        self.rotation_speed_tenths = self.rotation_speed_tenths - 1;
                    }
                    consumed
                } else {
                    ignored
                }
            },
            InputEvent::IncreaseRadius => {
                match self.mesh {
                    Some(m) => {
                        self.mesh = Some(
                            MeshParams { radius_tenths: m.radius_tenths + 1, ..m },
                        );
                        self.update_buffers = true;
                        consumed
                    },
                    None => ignored,
                }
            },
            InputEvent::DecreaseRadius => {
                match self.mesh {
                    Some(m) => {
                        self.mesh = Some(
                            MeshParams { radius_tenths: m.radius_tenths - 1, ..m },
                        );
                        self.update_buffers = true;
                        consumed
                    },
                    None => ignored,
                }
            },
            InputEvent::IncreaseUSegments => {
                match self.mesh {
                    Some(m) => {
                        self.mesh = Some(MeshParams { u_segments: m.u_segments + 1, ..m });
                        self.recreate_buffers = true;
                        consumed
                    },
                    None => ignored,
                }
            },
            InputEvent::DecreaseUSegments => {
                match self.mesh {
                    Some(m) => {
                        self.mesh = Some(MeshParams { u_segments: m.u_segments - 1, ..m });
                        self.recreate_buffers = true;
                        consumed
                    },
                    None => ignored,
                }
            },
            InputEvent::IncreaseVSegments => {
                match self.mesh {
                    Some(m) => {
                        self.mesh = Some(MeshParams { v_segments: m.v_segments + 1, ..m });
                        self.recreate_buffers = true;
                        consumed
                    },
                    None => ignored,
                }
            },
            InputEvent::DecreaseVSegments => {
                match self.mesh {
                    Some(m) => {
                        self.mesh = Some(MeshParams { v_segments: m.v_segments - 1, ..m });
                        self.recreate_buffers = true;
                        consumed
                    },
                    None => ignored,
                }
            },
            InputEvent::Other => ignored,
        }
    }

    /// The state and actions one update call produces: the rotation uniform
    /// is refreshed on an animated scene, a set in-place flag becomes a
    /// rewrite of the vertex buffer with the stored parameters, a set
    /// recreate flag becomes a rebuild of the buffers with them, and both
    /// flags are cleared.
    pub open spec fn spec_update(s: State) -> (State, UpdateActions) {
        (
            State { update_buffers: false, recreate_buffers: false, ..s },
            UpdateActions {
                write_rotation_uniform: s.animated,
                rewrite: if s.update_buffers {
                    s.mesh
                } else {
                    None
                },
                recreate: if s.recreate_buffers {
                    s.mesh
                } else {
                    None
                },
            },
        )
    }

    /// The per-frame update: decides the uniform refresh and the deferred
    /// buffer work, batching expensive GPU resource recreation out of the
    /// input path into one place per frame.
    pub fn update(&mut self) -> (r: UpdateActions)
        requires
            old(self).wf(),
        ensures
            *final(self) == State::spec_update(*old(self)).0,
            r == State::spec_update(*old(self)).1,
            final(self).wf(),
    {
        let rewrite = if self.update_buffers {
            self.mesh
        } else {
            None
        };
        let recreate = if self.recreate_buffers {
            self.mesh
        } else {
            None
        };
        self.update_buffers = false;
        self.recreate_buffers = false;
        UpdateActions { write_rotation_uniform: self.animated, rewrite, recreate }
    }

    /// Records the element counts of freshly recreated geometry buffers, as
    /// reported back after a recreate action ran the generator.
    pub fn complete_regeneration(&mut self, shape_index_count: u32, wire_index_count: u32)
        requires
            old(self).wf(),
            (old(self).geometry is IndexedPair),
        ensures
            *final(self) == (State {
                geometry: DrawGeometry::IndexedPair { shape_index_count, wire_index_count },
                ..*old(self)
            }),
            final(self).wf(),
    {
        self.geometry = DrawGeometry::IndexedPair { shape_index_count, wire_index_count };
    }

    /// The draw calls of one frame. A bare vertex range is one direct draw;
    /// one index buffer is one indexed draw with the first bind set; a pair
    /// draws the shape, the wireframe, or both in that order, as the display
    /// mode selects.
    pub open spec fn spec_draws(s: State) -> Seq<DrawCall> {
        match s.geometry {
            DrawGeometry::Arrays { vertex_count } => seq![
                DrawCall {
                    pipeline: 0,
                    bind_group: None,
                    indexed: false,
                    element_count: vertex_count,
                },
            ],
            DrawGeometry::Indexed { index_count } => seq![
                DrawCall {
                    pipeline: 0,
                    bind_group: Some(0),
                    indexed: true,
                    element_count: index_count,
                },
            ],
            DrawGeometry::IndexedPair { shape_index_count, wire_index_count } => {
                let shape = DrawCall {
                    pipeline: 0,
                    bind_group: Some(0),
                    indexed: true,
                    element_count: shape_index_count,
                };
                let wire = DrawCall {
                    pipeline: 1,
                    bind_group: Some(1),
                    indexed: true,
                    element_count: wire_index_count,
                };
                if s.plot_type == MODE_SHAPE_ONLY {
                    seq![shape]
                } else if s.plot_type == MODE_WIREFRAME_ONLY {
                    seq![wire]
                } else {
                    seq![shape, wire]
                }
            },
        }
    }

    /// Decides one frame: attachment choice and draw calls. The plan's target
    /// extent equals both the surface configuration and the stored size, so a
    /// render that follows a resize never meets a dimension mismatch.
    pub fn render_plan(&self) -> (r: FramePlan)
        requires
            self.wf(),
        ensures
            r.color_attachment == (if self.sample_count > 1 {
                ColorAttachmentKind::Multisampled
            } else {
                ColorAttachmentKind::Direct
            }),
            r.depth_attachment == self.depth_enabled,
            r.target == self.config,
            r.target == self.size,
            r.draws@ == State::spec_draws(*self),
    {
        let color_attachment = if self.sample_count > 1 {
            ColorAttachmentKind::Multisampled
        } else {
            ColorAttachmentKind::Direct
        };
        let mut draws: Vec<DrawCall> = Vec::new();
        match self.geometry {
            DrawGeometry::Arrays { vertex_count } => {
                draws.push(
                    DrawCall {
                        pipeline: 0,
                        bind_group: None,
                        indexed: false,
                        element_count: vertex_count,
                    },
                );
            },
            DrawGeometry::Indexed { index_count } => {
                draws.push(
                    DrawCall {
                        pipeline: 0,
                        bind_group: Some(0),
                        indexed: true,
                        element_count: index_count,
                    },
                );
            },
            DrawGeometry::IndexedPair { shape_index_count, wire_index_count } => {
                if self.plot_type != MODE_WIREFRAME_ONLY {
                    draws.push(
                        DrawCall {
                            pipeline: 0,
                            bind_group: Some(0),
                            indexed: true,
                            element_count: shape_index_count,
                        },
                    );
                }
                if self.plot_type != MODE_SHAPE_ONLY {
                    draws.push(
                        DrawCall {
                            pipeline: 1,
                            bind_group: Some(1),
                            indexed: true,
                            element_count: wire_index_count,
                        },
                    );
                }
            },
        }
        proof {
            assert(draws@ =~= State::spec_draws(*self));
        }
        FramePlan {
            color_attachment,
            depth_attachment: self.depth_enabled,
            target: self.config,
            draws,
        }
    }

    /// The state left after `n` consecutive speed-decrease events.
    pub open spec fn spec_after_speed_decreases(s: State, n: nat) -> State
        decreases n,
    {
        if n == 0 {
            s
        } else {
            State::spec_input(
                State::spec_after_speed_decreases(s, (n - 1) as nat),
                InputEvent::DecreaseSpeed,
            ).0
        }
    }
}

/// For every non-zero size, resizing leaves the stored size at that value and
/// the surface configuration and every size-derived attachment agreeing with
/// it — so the render plan drawn from the resized state, whose target extent
/// its contract ties to both, can never observe a dimension mismatch.
pub proof fn lemma_resize_then_render_consistent(s: State, width: u32, height: u32)
    requires
        s.wf(),
        width > 0,
        height > 0,
    ensures
        State::spec_resized(s, width, height).size == (Extent { width, height }),
        State::spec_resized(s, width, height).wf(),
        State::spec_resized(s, width, height).attachments_consistent(),
{
}

/// A resize with either dimension zero — a minimized window — is a no-op:
/// the stored size and everything derived from it stay exactly as they were.
pub proof fn lemma_resize_zero_is_noop(s: State, width: u32, height: u32)
    requires
        width == 0 || height == 0,
    ensures
        State::spec_resized(s, width, height) == s,
{
}

/// Toggling the display mode three times returns the whole state to what it
/// was before the first toggle: the cycle has period three.
pub proof fn lemma_toggle_three_times_identity(s: State)
    requires
        s.wf(),
        s.geometry.spec_has_wireframe(),
    ensures
        State::spec_input(
            State::spec_input(
                State::spec_input(s, InputEvent::ToggleDisplayMode).0,
                InputEvent::ToggleDisplayMode,
            ).0,
            InputEvent::ToggleDisplayMode,
        ).0 == s,
{
    crate::display::lemma_toggle_period_three(s.plot_type);
}

/// Repeated speed-decrease events are monotonically clamped: after any
/// number of them the stored speed has gone down by exactly one tenth per
/// event until reaching zero, and never below zero.
pub proof fn lemma_speed_decrease_never_below_zero(s: State, n: nat)
    requires
        s.animated,
    ensures
        State::spec_after_speed_decreases(s, n) == (State {
            rotation_speed_tenths: if n >= s.rotation_speed_tenths {
                0u32
            } else {
                (s.rotation_speed_tenths - n) as u32
            },
            ..s
        }),
        State::spec_after_speed_decreases(s, n).rotation_speed_tenths
            <= s.rotation_speed_tenths,
    decreases n,
{
    if n > 0 {
        lemma_speed_decrease_never_below_zero(s, (n - 1) as nat);
    }
}

/// The update call asks the generator to run with exactly the parameters the
/// state stores: two states with equal mesh parameters and equal dirty flags
/// issue equal rewrite and recreate requests. What the generator itself makes
/// of equal requests is its own affair, settled outside this machine.
pub proof fn lemma_equal_parameters_equal_requests(a: State, b: State)
    requires
        a.mesh == b.mesh,
        a.update_buffers == b.update_buffers,
        a.recreate_buffers == b.recreate_buffers,
    ensures
        State::spec_update(a).1.rewrite == State::spec_update(b).1.rewrite,
        State::spec_update(a).1.recreate == State::spec_update(b).1.recreate,
{
}

} // verus!
