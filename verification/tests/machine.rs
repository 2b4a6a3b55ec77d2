use render_state::frame::ColorAttachmentKind;
use render_state::geometry::{DrawGeometry, MeshParams};
use render_state::input::{ColorTarget, InputEvent};
use render_state::state::{State, INITIAL_SPEED_TENTHS};
use render_state::surface::Extent;

fn wireframe_state() -> State {
    State::new(
        800,
        600,
        4,
        true,
        true,
        DrawGeometry::IndexedPair {
            shape_index_count: 36,
            wire_index_count: 48,
        },
        Some(MeshParams {
            radius_tenths: 20,
            u_segments: 20,
            v_segments: 30,
        }),
    )
}

#[test]
fn new_state_matches_window() {
    let s = wireframe_state();
    assert_eq!(s.size, Extent { width: 800, height: 600 });
    assert_eq!(s.config, s.size);
    assert_eq!(s.projection, s.size);
    assert_eq!(s.depth_target, s.size);
    assert_eq!(s.msaa_target, s.size);
    assert_eq!(s.plot_type, 0);
    assert_eq!(s.rotation_speed_tenths, INITIAL_SPEED_TENTHS);
    assert!(!s.update_buffers);
    assert!(!s.recreate_buffers);
}

#[test]
fn resize_then_render_has_no_dimension_mismatch() {
    let mut s = wireframe_state();
    s.resize(1024, 768);
    assert_eq!(s.size, Extent { width: 1024, height: 768 });
    assert_eq!(s.config, s.size);
    assert_eq!(s.depth_target, s.size);
    assert_eq!(s.msaa_target, s.size);
    let plan = s.render_plan();
    assert_eq!(plan.target, Extent { width: 1024, height: 768 });
    assert_eq!(plan.target, s.config);
    assert_eq!(plan.target, s.size);
}

#[test]
fn resize_zero_width_is_noop() {
    let mut s = wireframe_state();
    let before = s;
    s.resize(0, 768);
    assert_eq!(s.size, before.size);
    assert_eq!(s.config, before.config);
    assert_eq!(s.projection, before.projection);
    assert_eq!(s.depth_target, before.depth_target);
    assert_eq!(s.msaa_target, before.msaa_target);
}

#[test]
fn resize_zero_height_is_noop() {
    let mut s = wireframe_state();
    s.resize(1024, 0);
    assert_eq!(s.size, Extent { width: 800, height: 600 });
    assert_eq!(s.config, Extent { width: 800, height: 600 });
}

#[test]
fn toggle_cycles_through_three_modes() {
    let mut s = wireframe_state();
    assert_eq!(s.plot_type, 0);
    assert!(s.input(InputEvent::ToggleDisplayMode).consumed);
    assert_eq!(s.plot_type, 1);
    assert!(s.input(InputEvent::ToggleDisplayMode).consumed);
    assert_eq!(s.plot_type, 2);
    assert!(s.input(InputEvent::ToggleDisplayMode).consumed);
    assert_eq!(s.plot_type, 0);
}

#[test]
fn three_toggles_restore_the_mode() {
    let mut s = wireframe_state();
    s.input(InputEvent::ToggleDisplayMode);
    let start = s.plot_type;
    s.input(InputEvent::ToggleDisplayMode);
    s.input(InputEvent::ToggleDisplayMode);
    s.input(InputEvent::ToggleDisplayMode);
    assert_eq!(s.plot_type, start);
}

#[test]
fn speed_decrease_clamps_at_zero() {
    let mut s = wireframe_state();
    assert_eq!(s.rotation_speed_tenths, 10);
    for _ in 0..25 {
        assert!(s.input(InputEvent::DecreaseSpeed).consumed);
        assert!(s.rotation_speed_tenths <= 10);
    }
    assert_eq!(s.rotation_speed_tenths, 0);
    assert!(s.input(InputEvent::DecreaseSpeed).consumed);
    assert_eq!(s.rotation_speed_tenths, 0);
}

#[test]
fn speed_increase_steps_by_one_tenth() {
    let mut s = wireframe_state();
    s.input(InputEvent::IncreaseSpeed);
    s.input(InputEvent::IncreaseSpeed);
    assert_eq!(s.rotation_speed_tenths, 12);
}

#[test]
fn speed_events_ignored_without_animation() {
    let mut s = State::new(
        640,
        480,
        1,
        false,
        false,
        DrawGeometry::Arrays { vertex_count: 3 },
        None,
    );
    assert!(!s.input(InputEvent::IncreaseSpeed).consumed);
    assert!(!s.input(InputEvent::DecreaseSpeed).consumed);
    assert_eq!(s.rotation_speed_tenths, INITIAL_SPEED_TENTHS);
}

#[test]
fn color_events_answered_only_with_wireframe() {
    let mut s = wireframe_state();
    let r = s.input(InputEvent::RandomizeShapeColor);
    assert!(r.consumed);
    assert_eq!(r.write_color, Some(ColorTarget::Shape));
    let r = s.input(InputEvent::RandomizeWireframeColor);
    assert!(r.consumed);
    assert_eq!(r.write_color, Some(ColorTarget::Wireframe));

    let mut plain = State::new(
        640,
        480,
        1,
        true,
        true,
        DrawGeometry::Indexed { index_count: 36 },
        None,
    );
    let r = plain.input(InputEvent::RandomizeShapeColor);
    assert!(!r.consumed);
    assert_eq!(r.write_color, None);
}

#[test]
fn radius_nudge_sets_in_place_rewrite() {
    let mut s = wireframe_state();
    assert!(s.input(InputEvent::IncreaseRadius).consumed);
    assert_eq!(
        s.mesh,
        Some(MeshParams {
            radius_tenths: 21,
            u_segments: 20,
            v_segments: 30,
        })
    );
    assert!(s.update_buffers);
    assert!(!s.recreate_buffers);
    let acts = s.update();
    assert!(acts.write_rotation_uniform);
    assert_eq!(
        acts.rewrite,
        Some(MeshParams {
            radius_tenths: 21,
            u_segments: 20,
            v_segments: 30,
        })
    );
    assert_eq!(acts.recreate, None);
    assert!(!s.update_buffers);
    // counts unchanged by an in-place rewrite
    assert_eq!(
        s.geometry,
        DrawGeometry::IndexedPair {
            shape_index_count: 36,
            wire_index_count: 48,
        }
    );
}

#[test]
fn radius_decrease_can_go_negative() {
    let mut s = wireframe_state();
    for _ in 0..25 {
        assert!(s.input(InputEvent::DecreaseRadius).consumed);
    }
    assert_eq!(
        s.mesh,
        Some(MeshParams {
            radius_tenths: -5,
            u_segments: 20,
            v_segments: 30,
        })
    );
}

#[test]
fn segment_nudge_sets_recreate() {
    let mut s = wireframe_state();
    assert!(s.input(InputEvent::IncreaseUSegments).consumed);
    assert!(s.input(InputEvent::DecreaseVSegments).consumed);
    assert!(s.recreate_buffers);
    let acts = s.update();
    assert_eq!(
        acts.recreate,
        Some(MeshParams {
            radius_tenths: 20,
            u_segments: 21,
            v_segments: 29,
        })
    );
    assert!(!s.recreate_buffers);
    s.complete_regeneration(4000, 5000);
    assert_eq!(
        s.geometry,
        DrawGeometry::IndexedPair {
            shape_index_count: 4000,
            wire_index_count: 5000,
        }
    );
}

#[test]
fn identical_parameters_yield_identical_requests() {
    let mut a = wireframe_state();
    let mut b = wireframe_state();
    a.input(InputEvent::IncreaseUSegments);
    b.input(InputEvent::IncreaseUSegments);
    let ra = a.update();
    let rb = b.update();
    assert_eq!(ra.recreate, rb.recreate);
    assert_eq!(ra.rewrite, rb.rewrite);
    // equal counts reported back leave equal stored counts
    a.complete_regeneration(4242, 5151);
    b.complete_regeneration(4242, 5151);
    assert_eq!(a.geometry, b.geometry);
}

#[test]
fn mesh_events_ignored_without_mesh() {
    let mut s = State::new(
        640,
        480,
        1,
        true,
        true,
        DrawGeometry::Indexed { index_count: 36 },
        None,
    );
    assert!(!s.input(InputEvent::IncreaseRadius).consumed);
    assert!(!s.input(InputEvent::DecreaseUSegments).consumed);
    assert!(!s.update_buffers);
    assert!(!s.recreate_buffers);
}

#[test]
fn unbound_key_not_consumed() {
    let mut s = wireframe_state();
    let r = s.input(InputEvent::Other);
    assert!(!r.consumed);
    assert_eq!(r.write_color, None);
}

#[test]
fn fresh_state_renders_one_draw_covering_all_vertices() {
    // end to end: a sample count of 1, no prior input
    let s = State::new(
        640,
        480,
        1,
        false,
        false,
        DrawGeometry::Arrays { vertex_count: 3 },
        None,
    );
    let plan = s.render_plan();
    assert_eq!(plan.color_attachment, ColorAttachmentKind::Direct);
    assert!(!plan.depth_attachment);
    assert_eq!(plan.draws.len(), 1);
    assert_eq!(plan.draws[0].element_count, 3);
    assert!(!plan.draws[0].indexed);
    assert_eq!(plan.draws[0].pipeline, 0);
    assert_eq!(plan.draws[0].bind_group, None);
}

#[test]
fn fresh_indexed_state_renders_one_draw_covering_all_indices() {
    let s = State::new(
        800,
        600,
        1,
        true,
        true,
        DrawGeometry::Indexed { index_count: 36 },
        None,
    );
    let plan = s.render_plan();
    assert_eq!(plan.draws.len(), 1);
    assert!(plan.draws[0].indexed);
    assert_eq!(plan.draws[0].element_count, 36);
    assert_eq!(plan.draws[0].bind_group, Some(0));
}

#[test]
fn display_mode_selects_draw_calls() {
    let mut s = wireframe_state();
    // mode 0: both, shape first
    let plan = s.render_plan();
    assert_eq!(plan.draws.len(), 2);
    assert_eq!(plan.draws[0].pipeline, 0);
    assert_eq!(plan.draws[0].element_count, 36);
    assert_eq!(plan.draws[1].pipeline, 1);
    assert_eq!(plan.draws[1].element_count, 48);
    // mode 1: shape only
    s.input(InputEvent::ToggleDisplayMode);
    let plan = s.render_plan();
    assert_eq!(plan.draws.len(), 1);
    assert_eq!(plan.draws[0].pipeline, 0);
    // mode 2: wireframe only
    s.input(InputEvent::ToggleDisplayMode);
    let plan = s.render_plan();
    assert_eq!(plan.draws.len(), 1);
    assert_eq!(plan.draws[0].pipeline, 1);
    assert_eq!(plan.draws[0].element_count, 48);
}

#[test]
fn multisampled_state_uses_msaa_attachment() {
    let s = wireframe_state();
    let plan = s.render_plan();
    assert_eq!(plan.color_attachment, ColorAttachmentKind::Multisampled);
    assert!(plan.depth_attachment);
}
