//! The per-frame protocol, as a planner.
//!
//! Rendering a frame alternates device work with decisions: which viewport to
//! set, whether to abandon the frame, which scissor rectangle and offsets
//! each indexed draw gets. The device work itself cannot run here, so the
//! decisions are planned as an ordered sequence of [`DeviceAction`] values
//! that a host-side driver performs one by one. The planner runs in two
//! phases, because the toolkit builds the frame in the middle of the
//! protocol: [`plan_setup`] covers snapshot, surface reconfiguration,
//! pipeline install and frame build; [`plan_draw`] covers everything from
//! display-size validation to the final state restore.

use vstd::prelude::*;

use crate::model::{
    index_advance_before, index_advance_upto, vertex_count_before, ClipRect, DrawCommand, DrawData,
    DrawList, RenderError, WindowRect,
};
use crate::model::{
    lemma_index_advance_before_monotone, lemma_index_advance_upto_monotone,
    lemma_vertex_count_before_monotone,
};

verus! {

/// A device scissor rectangle, in device coordinates. Held as 64-bit values
/// so that subtracting the display origin is exact for every 32-bit input.
#[derive(Clone, Copy, PartialEq, Eq, Structural, Debug)]
pub struct ScissorRect {
    pub left: i64,
    pub top: i64,
    pub right: i64,
    pub bottom: i64,
}

/// One step of the per-frame protocol, to be performed against the device,
/// the surface or the toolkit by the host-side driver.
#[derive(Clone, Copy, PartialEq, Eq, Structural, Debug)]
pub enum DeviceAction {
    /// Capture the device pipeline state into a snapshot.
    CaptureState,
    /// Tell the toolkit the display size to lay the frame out against.
    SetDisplaySize { width: i64, height: i64 },
    /// Set the device viewport to an origin-zero rectangle.
    SetViewport { left: i64, top: i64, right: i64, bottom: i64 },
    /// Bind the swap chain's back buffer as the render target.
    SetRenderTarget,
    /// Install the overlay's shaders and fixed-function pipeline state.
    InstallPipeline,
    /// Begin a toolkit frame, run the host's build callback, finalize.
    BuildFrame,
    /// Write the frame's clip-space parameters into the constant buffer.
    SetConstantBuffer { left: i64, top: i64, right: i64, bottom: i64 },
    /// Upload the frame's staged vertex and index data into the geometry
    /// buffers, growing them if the frame needs more than they hold.
    UploadGeometry,
    /// Bind the vertex buffer at the vertex record's stride.
    BindVertexBuffer,
    /// Bind the index buffer in the toolkit's configured index width.
    BindIndexBuffer,
    /// Select the triangle-list primitive topology.
    SetTriangleTopology,
    /// Bind the constant buffer to the vertex shader stage.
    BindConstantBuffer,
    /// Bind the font texture's shader-resource view to the pixel stage.
    /// Only the font texture is ever bound: a per-command texture would need
    /// an indirection the orchestrator does not implement.
    BindFontTexture,
    /// Set the device scissor rectangle.
    SetScissor { rect: ScissorRect },
    /// Issue an indexed draw of `count` indices starting at `first_index`,
    /// with vertex indices based at `base_vertex`.
    DrawIndexed { count: u32, first_index: u32, base_vertex: i32 },
    /// Reinstall the surface's default render target and viewport state.
    SetupDefaultState,
    /// Hand control to the host-side callback identified by `token`; nothing
    /// is guaranteed of device state afterward until the next state
    /// reinstall or the final restore.
    RunRawCallback { token: usize },
    /// Restore the device pipeline state from the snapshot.
    RestoreState,
}

/// What one draw command contributes to the plan, given the display origin
/// and the cumulative offsets at that command.
pub open spec fn command_actions(
    cmd: DrawCommand,
    origin_x: i32,
    origin_y: i32,
    first_index: int,
    base_vertex: int,
) -> Seq<DeviceAction> {
    match cmd {
        DrawCommand::Elements { count, clip } => seq![
            DeviceAction::SetScissor {
                rect: ScissorRect {
                    left: (clip.left - origin_x) as i64,
                    top: (clip.top - origin_y) as i64,
                    right: (clip.right - origin_x) as i64,
                    bottom: (clip.bottom - origin_y) as i64,
                },
            },
            DeviceAction::BindFontTexture,
            DeviceAction::DrawIndexed {
                count,
                first_index: first_index as u32,
                base_vertex: base_vertex as i32,
            },
        ],
        DrawCommand::ResetRenderState => seq![
            DeviceAction::SetupDefaultState,
            DeviceAction::InstallPipeline,
        ],
        DrawCommand::RawCallback { token } => seq![DeviceAction::RunRawCallback { token }],
    }
}

/// Actions of the first `j` commands of one list. `list_first_index` is the
/// cumulative index offset at the start of the list and `base_vertex` the
/// cumulative vertex count of the lists before it.
pub open spec fn list_actions_upto(
    cmds: Seq<DrawCommand>,
    origin_x: i32,
    origin_y: i32,
    list_first_index: int,
    base_vertex: int,
    j: int,
) -> Seq<DeviceAction>
    decreases j,
{
    if j <= 0 {
        Seq::empty()
    } else {
        list_actions_upto(cmds, origin_x, origin_y, list_first_index, base_vertex, j - 1)
            + command_actions(
            cmds[j - 1],
            origin_x,
            origin_y,
            list_first_index + index_advance_upto(cmds, j - 1),
            base_vertex,
        )
    }
}

/// Actions of the first `k` draw lists, offsets accumulated across lists.
pub open spec fn lists_actions_upto(
    lists: Seq<DrawList>,
    origin_x: i32,
    origin_y: i32,
    k: int,
) -> Seq<DeviceAction>
    decreases k,
{
    if k <= 0 {
        Seq::empty()
    } else {
        lists_actions_upto(lists, origin_x, origin_y, k - 1) + list_actions_upto(
            lists[k - 1].commands@,
            origin_x,
            origin_y,
            index_advance_before(lists, k - 1),
            vertex_count_before(lists, k - 1),
            lists[k - 1].commands@.len() as int,
        )
    }
}

/// The interpretation of a whole frame's draw lists.
pub open spec fn interpret_actions(dd: DrawData) -> Seq<DeviceAction> {
    lists_actions_upto(dd.lists@, dd.origin_x, dd.origin_y, dd.lists@.len() as int)
}

/// The geometry-upload and binding actions that precede interpretation.
pub open spec fn binding_actions(dd: DrawData) -> Seq<DeviceAction> {
    seq![
        DeviceAction::SetConstantBuffer {
            left: dd.origin_x as i64,
            top: dd.origin_y as i64,
            right: (dd.origin_x + dd.width) as i64,
            bottom: (dd.origin_y + dd.height) as i64,
        },
        DeviceAction::UploadGeometry,
        DeviceAction::BindVertexBuffer,
        DeviceAction::BindIndexBuffer,
        DeviceAction::SetTriangleTopology,
        DeviceAction::BindConstantBuffer,
        DeviceAction::BindFontTexture,
    ]
}

/// Every action of the draw phase, the final state restore included. A
/// degenerate frame is abandoned, but its snapshot is still restored: the
/// restore happens on every exit path.
pub open spec fn frame_draw_actions(dd: DrawData) -> Seq<DeviceAction> {
    if dd.degenerate() {
        seq![DeviceAction::RestoreState]
    } else {
        binding_actions(dd) + interpret_actions(dd) + seq![DeviceAction::RestoreState]
    }
}

/// Every action of the setup phase: snapshot first, then surface
/// reconfiguration if the window rectangle is available (a minimized host
/// may report none, and the stale display size is tolerated), then the
/// pipeline install and the frame build.
pub open spec fn setup_actions(rect: Option<WindowRect>) -> Seq<DeviceAction> {
    seq![DeviceAction::CaptureState] + (match rect {
        Some(r) => seq![
            DeviceAction::SetDisplaySize {
                width: (r.right - r.left) as i64,
                height: (r.bottom - r.top) as i64,
            },
            DeviceAction::SetViewport {
                left: 0,
                top: 0,
                right: (r.right - r.left) as i64,
                bottom: (r.bottom - r.top) as i64,
            },
            DeviceAction::SetRenderTarget,
        ],
        None => Seq::empty(),
    }) + seq![DeviceAction::InstallPipeline, DeviceAction::BuildFrame]
}

/// The whole frame protocol: the setup phase for the window rectangle the
/// surface reported, then the draw phase for the frame the toolkit built.
pub open spec fn frame_actions(rect: Option<WindowRect>, dd: DrawData) -> Seq<DeviceAction> {
    setup_actions(rect) + frame_draw_actions(dd)
}

/// Clip-rect translation: the device scissor rectangle is the command's clip
/// rectangle with the display origin subtracted from each coordinate,
/// exactly.
pub fn scissor_for(clip: &ClipRect, origin_x: i32, origin_y: i32) -> (r: ScissorRect)
    ensures
        r.left as int == clip.left - origin_x,
        r.top as int == clip.top - origin_y,
        r.right as int == clip.right - origin_x,
        r.bottom as int == clip.bottom - origin_y,
{
    ScissorRect {
        left: clip.left as i64 - origin_x as i64,
        top: clip.top as i64 - origin_y as i64,
        right: clip.right as i64 - origin_x as i64,
        bottom: clip.bottom as i64 - origin_y as i64,
    }
}

/// The device index format is 16-bit exactly when the toolkit's configured
/// index type is two bytes wide; any other width is submitted as 32-bit.
pub fn index_format_is_16_bit(index_size: usize) -> (r: bool)
    ensures
        r == (index_size == 2),
{
    index_size == 2
}

/// Plan the setup phase of the protocol: capture the state snapshot, then,
/// if the surface reported a window rectangle, adopt its extent as the
/// display size and set an origin-zero viewport and the render target; then
/// install the overlay pipeline and build the toolkit frame.
pub fn plan_setup(rect: Option<WindowRect>) -> (actions: Vec<DeviceAction>)
    ensures
        actions@ == setup_actions(rect),
{
    let mut actions: Vec<DeviceAction> = Vec::new();
    actions.push(DeviceAction::CaptureState);
    match rect {
        Some(r) => {
            let width: i64 = r.right as i64 - r.left as i64;
            let height: i64 = r.bottom as i64 - r.top as i64;
            actions.push(DeviceAction::SetDisplaySize { width, height });
            actions.push(DeviceAction::SetViewport { left: 0, top: 0, right: width, bottom: height });
            actions.push(DeviceAction::SetRenderTarget);
        },
        None => {},
    }
    actions.push(DeviceAction::InstallPipeline);
    actions.push(DeviceAction::BuildFrame);
    proof {
        assert(actions@ =~= setup_actions(rect));
    }
    actions
}

/// The outcome of planning one frame's draw phase: the device actions to
/// perform in order, and whether the frame was rendered or abandoned.
pub struct DrawPlan {
    pub actions: Vec<DeviceAction>,
    pub outcome: Result<(), RenderError>,
}

/// Plan the draw phase of the protocol from the frame the toolkit built:
/// reject a degenerate display size, otherwise configure the constant
/// buffer from the display rectangle, upload and bind the geometry, and
/// interpret every draw command in order with cumulative offsets. Both the
/// success path and the rejection path end by restoring the snapshot.
pub fn plan_draw(dd: &DrawData) -> (plan: DrawPlan)
    requires
        dd.fits_device_limits(),
    ensures
        plan.actions@ == frame_draw_actions(*dd),
        plan.outcome is Err <==> dd.degenerate(),
        dd.degenerate() ==> plan.outcome == Err::<(), RenderError>(
            RenderError::DegenerateDisplaySize { width: dd.width, height: dd.height },
        ),
        plan.actions@.len() >= 1 && plan.actions@.last() == DeviceAction::RestoreState,
        dd.degenerate() ==> forall|i: int|
            0 <= i < plan.actions@.len() ==> !(plan.actions@[i] is DrawIndexed),
{
    let mut actions: Vec<DeviceAction> = Vec::new();
    if dd.width <= 0 && dd.height <= 0 {
        actions.push(DeviceAction::RestoreState);
        proof {
            assert(actions@ =~= frame_draw_actions(*dd));
        }
        return DrawPlan {
            actions,
            outcome: Err(RenderError::DegenerateDisplaySize { width: dd.width, height: dd.height }),
        };
    }
    actions.push(DeviceAction::SetConstantBuffer {
        left: dd.origin_x as i64,
        top: dd.origin_y as i64,
        right: dd.origin_x as i64 + dd.width as i64,
        bottom: dd.origin_y as i64 + dd.height as i64,
    });
    actions.push(DeviceAction::UploadGeometry);
    actions.push(DeviceAction::BindVertexBuffer);
    actions.push(DeviceAction::BindIndexBuffer);
    actions.push(DeviceAction::SetTriangleTopology);
    actions.push(DeviceAction::BindConstantBuffer);
    actions.push(DeviceAction::BindFontTexture);
    proof {
        assert(actions@ =~= binding_actions(*dd) + lists_actions_upto(
            dd.lists@,
            dd.origin_x,
            dd.origin_y,
            0,
        ));
    }
    let mut first_index: u32 = 0;
    let mut base_vertex: u32 = 0;
    let mut k: usize = 0;
    while k < dd.lists.len()
        invariant
            dd.fits_device_limits(),
            0 <= k <= dd.lists@.len(),
            first_index as int == index_advance_before(dd.lists@, k as int),
            base_vertex as int == vertex_count_before(dd.lists@, k as int),
            actions@ == binding_actions(*dd) + lists_actions_upto(
                dd.lists@,
                dd.origin_x,
                dd.origin_y,
                k as int,
            ),
        decreases dd.lists@.len() - k,
    {
        proof {
            lemma_index_advance_before_monotone(dd.lists@, k + 1, dd.lists@.len() as int);
            lemma_vertex_count_before_monotone(dd.lists@, k + 1, dd.lists@.len() as int);
        }
        let list = &dd.lists[k];
        let ghost list_first_index = index_advance_before(dd.lists@, k as int);
        let mut cursor: u32 = first_index;
        let mut j: usize = 0;
        while j < list.commands.len()
            invariant
                dd.fits_device_limits(),
                0 <= k < dd.lists@.len(),
                0 <= j <= list.commands@.len(),
                list == dd.lists@[k as int],
                list_first_index == index_advance_before(dd.lists@, k as int),
                base_vertex as int == vertex_count_before(dd.lists@, k as int),
                base_vertex <= i32::MAX,
                cursor as int == list_first_index + index_advance_upto(list.commands@, j as int),
                actions@ == binding_actions(*dd) + lists_actions_upto(
                    dd.lists@,
                    dd.origin_x,
                    dd.origin_y,
                    k as int,
                ) + list_actions_upto(
                    list.commands@,
                    dd.origin_x,
                    dd.origin_y,
                    list_first_index,
                    base_vertex as int,
                    j as int,
                ),
            decreases list.commands@.len() - j,
        {
            proof {
                lemma_index_advance_upto_monotone(
                    list.commands@,
                    j + 1,
                    list.commands@.len() as int,
                );
                lemma_index_advance_before_monotone(dd.lists@, k + 1, dd.lists@.len() as int);
            }
            match &list.commands[j] {
                DrawCommand::Elements { count, clip } => {
                    let rect = scissor_for(clip, dd.origin_x, dd.origin_y);
                    actions.push(DeviceAction::SetScissor { rect });
                    actions.push(DeviceAction::BindFontTexture);
                    actions.push(DeviceAction::DrawIndexed {
                        count: *count,
                        first_index: cursor,
                        base_vertex: base_vertex as i32,
                    });
                    cursor = cursor + *count;
                },
                DrawCommand::ResetRenderState => {
                    actions.push(DeviceAction::SetupDefaultState);
                    actions.push(DeviceAction::InstallPipeline);
                },
                DrawCommand::RawCallback { token } => {
                    actions.push(DeviceAction::RunRawCallback { token: *token });
                },
            }
            proof {
                assert(actions@ =~= binding_actions(*dd) + lists_actions_upto(
                    dd.lists@,
                    dd.origin_x,
                    dd.origin_y,
                    k as int,
                ) + list_actions_upto(
                    list.commands@,
                    dd.origin_x,
                    dd.origin_y,
                    list_first_index,
                    base_vertex as int,
                    j as int + 1,
                ));
            }
            j = j + 1;
        }
        first_index = cursor;
        proof {
            lemma_vertex_count_before_monotone(dd.lists@, k + 1, dd.lists@.len() as int);
        }
        base_vertex = base_vertex + list.vertices.len() as u32;
        k = k + 1;
        proof {
            assert(actions@ =~= binding_actions(*dd) + lists_actions_upto(
                dd.lists@,
                dd.origin_x,
                dd.origin_y,
                k as int,
            ));
        }
    }
    actions.push(DeviceAction::RestoreState);
    proof {
        assert(actions@ =~= frame_draw_actions(*dd));
    }
    DrawPlan { actions, outcome: Ok(()) }
}

} // verus!
