use overlay_render::model::{
    check_device_limits, ClipRect, DrawCommand, DrawData, DrawList, RenderError, Vertex,
    WindowRect,
};
use overlay_render::plan::{
    index_format_is_16_bit, plan_draw, plan_setup, scissor_for, DeviceAction, ScissorRect,
};

fn vtx(n: u32) -> Vertex {
    Vertex { pos_x_bits: n, pos_y_bits: n, uv_x_bits: 0, uv_y_bits: 0, color: 0xffff_ffff }
}

fn quad_list(commands: Vec<DrawCommand>) -> DrawList {
    DrawList {
        vertices: vec![vtx(1), vtx(2), vtx(3), vtx(4)],
        indices: vec![0, 1, 2, 0, 2, 3],
        commands,
    }
}

fn clip(left: i32, top: i32, right: i32, bottom: i32) -> ClipRect {
    ClipRect { left, top, right, bottom }
}

#[test]
fn single_list_single_elements_command() {
    let dd = DrawData {
        origin_x: 0,
        origin_y: 0,
        width: 800,
        height: 600,
        lists: vec![quad_list(vec![DrawCommand::Elements { count: 6, clip: clip(0, 0, 100, 100) }])],
    };
    assert!(check_device_limits(&dd));
    let plan = plan_draw(&dd);
    assert_eq!(plan.outcome, Ok(()));
    assert_eq!(
        plan.actions,
        vec![
            DeviceAction::SetConstantBuffer { left: 0, top: 0, right: 800, bottom: 600 },
            DeviceAction::UploadGeometry,
            DeviceAction::BindVertexBuffer,
            DeviceAction::BindIndexBuffer,
            DeviceAction::SetTriangleTopology,
            DeviceAction::BindConstantBuffer,
            DeviceAction::BindFontTexture,
            DeviceAction::SetScissor {
                rect: ScissorRect { left: 0, top: 0, right: 100, bottom: 100 },
            },
            DeviceAction::BindFontTexture,
            DeviceAction::DrawIndexed { count: 6, first_index: 0, base_vertex: 0 },
            DeviceAction::RestoreState,
        ]
    );
}

#[test]
fn two_lists_accumulate_offsets() {
    let dd = DrawData {
        origin_x: 0,
        origin_y: 0,
        width: 800,
        height: 600,
        lists: vec![
            quad_list(vec![DrawCommand::Elements { count: 6, clip: clip(0, 0, 50, 50) }]),
            quad_list(vec![DrawCommand::Elements { count: 6, clip: clip(0, 0, 50, 50) }]),
        ],
    };
    assert!(check_device_limits(&dd));
    let plan = plan_draw(&dd);
    assert_eq!(plan.outcome, Ok(()));
    let draws: Vec<&DeviceAction> = plan
        .actions
        .iter()
        .filter(|a| matches!(a, DeviceAction::DrawIndexed { .. }))
        .collect();
    assert_eq!(draws.len(), 2);
    assert_eq!(*draws[0], DeviceAction::DrawIndexed { count: 6, first_index: 0, base_vertex: 0 });
    assert_eq!(*draws[1], DeviceAction::DrawIndexed { count: 6, first_index: 6, base_vertex: 4 });
}

#[test]
fn degenerate_size_rejected_but_state_restored() {
    let dd = DrawData { origin_x: 0, origin_y: 0, width: 0, height: -3, lists: vec![] };
    assert!(check_device_limits(&dd));
    let plan = plan_draw(&dd);
    assert_eq!(
        plan.outcome,
        Err(RenderError::DegenerateDisplaySize { width: 0, height: -3 })
    );
    assert_eq!(plan.actions, vec![DeviceAction::RestoreState]);
    assert!(!plan.actions.iter().any(|a| matches!(a, DeviceAction::DrawIndexed { .. })));
}

#[test]
fn one_positive_dimension_still_renders() {
    let dd = DrawData { origin_x: 0, origin_y: 0, width: 0, height: 600, lists: vec![] };
    assert!(check_device_limits(&dd));
    let plan = plan_draw(&dd);
    assert_eq!(plan.outcome, Ok(()));
    assert_eq!(plan.actions.last(), Some(&DeviceAction::RestoreState));
}

#[test]
fn scissor_translation_subtracts_display_origin() {
    let r = scissor_for(&clip(60, 80, 160, 180), 50, 75);
    assert_eq!(r, ScissorRect { left: 10, top: 5, right: 110, bottom: 105 });
    let r = scissor_for(&clip(0, 0, 30, 40), -10, -20);
    assert_eq!(r, ScissorRect { left: 10, top: 20, right: 40, bottom: 60 });
    let r = scissor_for(&clip(i32::MIN, 0, i32::MAX, 0), i32::MAX, i32::MIN);
    assert_eq!(r.left, i32::MIN as i64 - i32::MAX as i64);
    assert_eq!(r.right, i32::MAX as i64 - i32::MAX as i64);
    assert_eq!(r.bottom, 0 - i32::MIN as i64);
}

#[test]
fn scissor_translation_inside_plan() {
    let dd = DrawData {
        origin_x: 50,
        origin_y: 75,
        width: 800,
        height: 600,
        lists: vec![quad_list(vec![DrawCommand::Elements {
            count: 6,
            clip: clip(60, 80, 160, 180),
        }])],
    };
    assert!(check_device_limits(&dd));
    let plan = plan_draw(&dd);
    assert_eq!(
        plan.actions[7],
        DeviceAction::SetScissor { rect: ScissorRect { left: 10, top: 5, right: 110, bottom: 105 } }
    );
}

#[test]
fn setup_with_window_rect_normalizes_viewport() {
    let actions = plan_setup(Some(WindowRect { left: 100, top: 200, right: 900, bottom: 800 }));
    assert_eq!(
        actions,
        vec![
            DeviceAction::CaptureState,
            DeviceAction::SetDisplaySize { width: 800, height: 600 },
            DeviceAction::SetViewport { left: 0, top: 0, right: 800, bottom: 600 },
            DeviceAction::SetRenderTarget,
            DeviceAction::InstallPipeline,
            DeviceAction::BuildFrame,
        ]
    );
}

#[test]
fn setup_without_window_rect_keeps_stale_size() {
    let actions = plan_setup(None);
    assert_eq!(
        actions,
        vec![DeviceAction::CaptureState, DeviceAction::InstallPipeline, DeviceAction::BuildFrame]
    );
}

#[test]
fn reset_and_callback_commands_interpret_in_order() {
    let dd = DrawData {
        origin_x: 0,
        origin_y: 0,
        width: 640,
        height: 480,
        lists: vec![DrawList {
            vertices: vec![vtx(1), vtx(2), vtx(3)],
            indices: vec![0, 1, 2],
            commands: vec![
                DrawCommand::ResetRenderState,
                DrawCommand::RawCallback { token: 7 },
                DrawCommand::Elements { count: 3, clip: clip(0, 0, 640, 480) },
            ],
        }],
    };
    assert!(check_device_limits(&dd));
    let plan = plan_draw(&dd);
    assert_eq!(
        plan.actions[7..],
        [
            DeviceAction::SetupDefaultState,
            DeviceAction::InstallPipeline,
            DeviceAction::RunRawCallback { token: 7 },
            DeviceAction::SetScissor {
                rect: ScissorRect { left: 0, top: 0, right: 640, bottom: 480 },
            },
            DeviceAction::BindFontTexture,
            DeviceAction::DrawIndexed { count: 3, first_index: 0, base_vertex: 0 },
            DeviceAction::RestoreState,
        ]
    );
}

#[test]
fn device_limits_accept_small_frames() {
    let dd = DrawData {
        origin_x: 0,
        origin_y: 0,
        width: 800,
        height: 600,
        lists: vec![quad_list(vec![DrawCommand::Elements { count: 6, clip: clip(0, 0, 1, 1) }])],
    };
    assert!(check_device_limits(&dd));
}

#[test]
fn device_limits_reject_index_overflow() {
    let huge = DrawList {
        vertices: vec![],
        indices: vec![],
        commands: vec![
            DrawCommand::Elements { count: u32::MAX, clip: clip(0, 0, 1, 1) },
            DrawCommand::Elements { count: u32::MAX, clip: clip(0, 0, 1, 1) },
        ],
    };
    let dd = DrawData { origin_x: 0, origin_y: 0, width: 800, height: 600, lists: vec![huge] };
    assert!(!check_device_limits(&dd));
}

#[test]
fn snapshot_captured_first_and_restored_last_on_both_paths() {
    let rect = Some(WindowRect { left: 0, top: 0, right: 640, bottom: 480 });
    let frames = vec![
        DrawData {
            origin_x: 0,
            origin_y: 0,
            width: 640,
            height: 480,
            lists: vec![quad_list(vec![DrawCommand::Elements { count: 6, clip: clip(0, 0, 9, 9) }])],
        },
        DrawData { origin_x: 0, origin_y: 0, width: -1, height: 0, lists: vec![] },
    ];
    for dd in &frames {
        assert!(check_device_limits(dd));
        let mut protocol = plan_setup(rect);
        protocol.extend(plan_draw(dd).actions);
        assert_eq!(protocol.first(), Some(&DeviceAction::CaptureState));
        assert_eq!(protocol.last(), Some(&DeviceAction::RestoreState));
        let captures = protocol.iter().filter(|a| **a == DeviceAction::CaptureState).count();
        let restores = protocol.iter().filter(|a| **a == DeviceAction::RestoreState).count();
        assert_eq!(captures, 1);
        assert_eq!(restores, 1);
    }
}

#[test]
fn offsets_accumulate_within_and_across_lists() {
    let first = DrawList {
        vertices: vec![vtx(1), vtx(2), vtx(3), vtx(4), vtx(5)],
        indices: vec![0, 1, 2, 2, 3, 4],
        commands: vec![
            DrawCommand::Elements { count: 3, clip: clip(0, 0, 10, 10) },
            DrawCommand::Elements { count: 3, clip: clip(0, 0, 20, 20) },
        ],
    };
    let second = quad_list(vec![DrawCommand::Elements { count: 6, clip: clip(0, 0, 30, 30) }]);
    let dd = DrawData {
        origin_x: 0,
        origin_y: 0,
        width: 800,
        height: 600,
        lists: vec![first, second],
    };
    assert!(check_device_limits(&dd));
    let plan = plan_draw(&dd);
    let draws: Vec<&DeviceAction> = plan
        .actions
        .iter()
        .filter(|a| matches!(a, DeviceAction::DrawIndexed { .. }))
        .collect();
    assert_eq!(
        draws,
        vec![
            &DeviceAction::DrawIndexed { count: 3, first_index: 0, base_vertex: 0 },
            &DeviceAction::DrawIndexed { count: 3, first_index: 3, base_vertex: 0 },
            &DeviceAction::DrawIndexed { count: 6, first_index: 6, base_vertex: 5 },
        ]
    );
}

#[test]
fn index_format_follows_index_size() {
    assert!(index_format_is_16_bit(2));
    assert!(!index_format_is_16_bit(4));
}
