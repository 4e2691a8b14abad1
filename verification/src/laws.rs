//! Protocol-level guarantees of the planner, stated and proved once over all
//! inputs.

use vstd::prelude::*;

use crate::buffers::{staged_indices, staged_vertices};
use crate::model::{
    index_advance_before, index_advance_upto, index_len_before, lemma_index_advance_before_monotone,
    lemma_index_advance_upto_monotone, lemma_vertex_count_before_monotone, vertex_count_before,
    DrawCommand, DrawData, DrawList, WindowRect,
};
use crate::plan::{
    command_actions, frame_actions, frame_draw_actions, interpret_actions, list_actions_upto,
    lists_actions_upto, setup_actions, DeviceAction,
};

verus! {

/// Whether an action reads or writes the pipeline-state snapshot.
pub open spec fn touches_snapshot(a: DeviceAction) -> bool {
    a is CaptureState || a is RestoreState
}

/// No interpretation of a draw command within one list touches the snapshot.
proof fn lemma_list_actions_snapshot_free(
    cmds: Seq<DrawCommand>,
    origin_x: i32,
    origin_y: i32,
    list_first_index: int,
    base_vertex: int,
    j: int,
)
    ensures
        forall|i: int|
            0 <= i < list_actions_upto(cmds, origin_x, origin_y, list_first_index, base_vertex, j).len()
                ==> !touches_snapshot(
                #[trigger] list_actions_upto(
                    cmds,
                    origin_x,
                    origin_y,
                    list_first_index,
                    base_vertex,
                    j,
                )[i],
            ),
    decreases j,
{
    if j > 0 {
        lemma_list_actions_snapshot_free(
            cmds,
            origin_x,
            origin_y,
            list_first_index,
            base_vertex,
            j - 1,
        );
        let prefix = list_actions_upto(
            cmds,
            origin_x,
            origin_y,
            list_first_index,
            base_vertex,
            j - 1,
        );
        let tail = command_actions(
            cmds[j - 1],
            origin_x,
            origin_y,
            list_first_index + index_advance_upto(cmds, j - 1),
            base_vertex,
        );
        assert forall|i: int| 0 <= i < (prefix + tail).len() implies !touches_snapshot(
            #[trigger] (prefix + tail)[i],
        ) by {
            if i < prefix.len() {
                assert((prefix + tail)[i] == prefix[i]);
            } else {
                assert((prefix + tail)[i] == tail[i - prefix.len()]);
            }
        }
    }
}

/// No interpretation of any draw list touches the snapshot.
proof fn lemma_lists_actions_snapshot_free(
    lists: Seq<DrawList>,
    origin_x: i32,
    origin_y: i32,
    k: int,
)
    ensures
        forall|i: int|
            0 <= i < lists_actions_upto(lists, origin_x, origin_y, k).len() ==> !touches_snapshot(
                #[trigger] lists_actions_upto(lists, origin_x, origin_y, k)[i],
            ),
    decreases k,
{
    if k > 0 {
        lemma_lists_actions_snapshot_free(lists, origin_x, origin_y, k - 1);
        let prefix = lists_actions_upto(lists, origin_x, origin_y, k - 1);
        let tail = list_actions_upto(
            lists[k - 1].commands@,
            origin_x,
            origin_y,
            index_advance_before(lists, k - 1),
            vertex_count_before(lists, k - 1),
            lists[k - 1].commands@.len() as int,
        );
        lemma_list_actions_snapshot_free(
            lists[k - 1].commands@,
            origin_x,
            origin_y,
            index_advance_before(lists, k - 1),
            vertex_count_before(lists, k - 1),
            lists[k - 1].commands@.len() as int,
        );
        assert forall|i: int| 0 <= i < (prefix + tail).len() implies !touches_snapshot(
            #[trigger] (prefix + tail)[i],
        ) by {
            if i < prefix.len() {
                assert((prefix + tail)[i] == prefix[i]);
            } else {
                assert((prefix + tail)[i] == tail[i - prefix.len()]);
            }
        }
    }
}

/// State preservation: over a whole frame, the planner pairs exactly one
/// snapshot capture with exactly one restore. The capture is the first
/// action of the protocol, the restore is the last, and no action between
/// them touches the snapshot — on the success path and on the rejection
/// path alike, whether or not a window rectangle was available.
pub proof fn lemma_state_preservation(rect: Option<WindowRect>, dd: DrawData)
    ensures
        frame_actions(rect, dd).len() >= 4,
        frame_actions(rect, dd).first() == DeviceAction::CaptureState,
        frame_actions(rect, dd).last() == DeviceAction::RestoreState,
        forall|i: int|
            0 < i < frame_actions(rect, dd).len() ==> #[trigger] frame_actions(rect, dd)[i]
                != DeviceAction::CaptureState,
        forall|i: int|
            0 <= i < frame_actions(rect, dd).len() - 1 ==> #[trigger] frame_actions(rect, dd)[i]
                != DeviceAction::RestoreState,
{
    let setup = setup_actions(rect);
    let draw = frame_draw_actions(dd);
    let whole = frame_actions(rect, dd);
    assert(forall|i: int| 0 < i < setup.len() ==> !touches_snapshot(#[trigger] setup[i])) by {
        match rect {
            Some(r) => {},
            None => {},
        }
    }
    assert(setup[0] == DeviceAction::CaptureState);
    if dd.degenerate() {
        assert(draw =~= seq![DeviceAction::RestoreState]);
    } else {
        let lists = dd.lists@;
        let inner = interpret_actions(dd);
        lemma_lists_actions_snapshot_free(lists, dd.origin_x, dd.origin_y, lists.len() as int);
        assert forall|i: int| 0 <= i < draw.len() - 1 implies !touches_snapshot(
            #[trigger] draw[i],
        ) by {
            if i < 7 {
            } else {
                assert(draw[i] == inner[i - 7]);
            }
        }
        assert(draw.last() == DeviceAction::RestoreState);
    }
    assert forall|i: int| 0 < i < whole.len() implies whole[i] != DeviceAction::CaptureState by {
        if i < setup.len() {
            assert(whole[i] == setup[i]);
        } else {
            assert(whole[i] == draw[i - setup.len()]);
            if i - setup.len() < draw.len() - 1 {
            } else {
                assert(draw.last() == DeviceAction::RestoreState);
            }
        }
    }
    assert forall|i: int| 0 <= i < whole.len() - 1 implies whole[i] != DeviceAction::RestoreState by {
        if i < setup.len() {
            assert(whole[i] == setup[i]);
        } else {
            assert(whole[i] == draw[i - setup.len()]);
        }
    }
    assert(whole.first() == setup[0]);
    assert(whole.last() == draw.last());
}

/// Offset accumulation: the planner hands the `k`-th draw list a first index
/// equal to the cumulative index advance of the lists before it and a base
/// vertex equal to their cumulative vertex count (visible in the
/// decomposition below); when every list's commands consume exactly its
/// index buffer, that first index equals the sum of the index-buffer
/// lengths of the lists before it.
pub proof fn lemma_offset_accumulation(lists: Seq<DrawList>, origin_x: i32, origin_y: i32, k: int)
    requires
        0 <= k <= lists.len(),
        forall|m: int| 0 <= m < lists.len() ==> (#[trigger] lists[m]).commands_cover_indices(),
    ensures
        index_advance_before(lists, k) == index_len_before(lists, k),
        k < lists.len() ==> lists_actions_upto(lists, origin_x, origin_y, k + 1)
            == lists_actions_upto(lists, origin_x, origin_y, k) + list_actions_upto(
            lists[k].commands@,
            origin_x,
            origin_y,
            index_len_before(lists, k),
            vertex_count_before(lists, k),
            lists[k].commands@.len() as int,
        ),
    decreases k,
{
    if k > 0 {
        lemma_offset_accumulation(lists, origin_x, origin_y, k - 1);
        assert(lists[k - 1].commands_cover_indices());
    }
}

/// The staged index data of the first `k` lists is as long as their
/// index-buffer lengths summed.
proof fn lemma_staged_indices_len_upto(lists: Seq<DrawList>, k: int)
    requires
        0 <= k <= lists.len(),
    ensures
        staged_indices(lists.take(k)).len() == index_len_before(lists, k),
    decreases k,
{
    if k > 0 {
        lemma_staged_indices_len_upto(lists, k - 1);
        assert(lists.take(k).drop_last() =~= lists.take(k - 1));
        assert(lists.take(k).last() == lists[k - 1]);
    }
}

/// The staged vertex data of the first `k` lists is as long as their vertex
/// counts summed.
proof fn lemma_staged_vertices_len_upto(lists: Seq<DrawList>, k: int)
    requires
        0 <= k <= lists.len(),
    ensures
        staged_vertices(lists.take(k)).len() == vertex_count_before(lists, k),
    decreases k,
{
    if k > 0 {
        lemma_staged_vertices_len_upto(lists, k - 1);
        assert(lists.take(k).drop_last() =~= lists.take(k - 1));
        assert(lists.take(k).last() == lists[k - 1]);
    }
}

/// Within one list, every indexed draw of the first `j` commands stays below
/// the index offset the list reaches after those commands.
proof fn lemma_list_draws_bounded(
    cmds: Seq<DrawCommand>,
    origin_x: i32,
    origin_y: i32,
    list_first_index: int,
    base_vertex: int,
    j: int,
)
    requires
        0 <= j <= cmds.len(),
        0 <= list_first_index,
        list_first_index + index_advance_upto(cmds, cmds.len() as int) <= u32::MAX,
    ensures
        forall|i: int|
            0 <= i < list_actions_upto(cmds, origin_x, origin_y, list_first_index, base_vertex, j).len()
                ==> ((#[trigger] list_actions_upto(
                cmds,
                origin_x,
                origin_y,
                list_first_index,
                base_vertex,
                j,
            )[i]) matches DeviceAction::DrawIndexed { count, first_index, .. }
                ==> first_index as int + count as int <= list_first_index + index_advance_upto(
                cmds,
                j,
            )),
    decreases j,
{
    if j > 0 {
        lemma_list_draws_bounded(cmds, origin_x, origin_y, list_first_index, base_vertex, j - 1);
        lemma_index_advance_upto_monotone(cmds, 0, j - 1);
        lemma_index_advance_upto_monotone(cmds, j - 1, j);
        lemma_index_advance_upto_monotone(cmds, j, cmds.len() as int);
        let prefix = list_actions_upto(
            cmds,
            origin_x,
            origin_y,
            list_first_index,
            base_vertex,
            j - 1,
        );
        let tail = command_actions(
            cmds[j - 1],
            origin_x,
            origin_y,
            list_first_index + index_advance_upto(cmds, j - 1),
            base_vertex,
        );
        assert forall|i: int| 0 <= i < (prefix + tail).len() implies ((#[trigger] (prefix
            + tail)[i]) matches DeviceAction::DrawIndexed { count, first_index, .. }
            ==> first_index as int + count as int <= list_first_index + index_advance_upto(
            cmds,
            j,
        )) by {
            if i < prefix.len() {
                assert((prefix + tail)[i] == prefix[i]);
            } else {
                assert((prefix + tail)[i] == tail[i - prefix.len()]);
            }
        }
    }
}

/// Across lists: every indexed draw of the first `k` lists stays below the
/// cumulative index offset those lists reach.
proof fn lemma_lists_draws_bounded(lists: Seq<DrawList>, origin_x: i32, origin_y: i32, k: int)
    requires
        0 <= k <= lists.len(),
        index_advance_before(lists, lists.len() as int) <= u32::MAX,
    ensures
        forall|i: int|
            0 <= i < lists_actions_upto(lists, origin_x, origin_y, k).len() ==> ((
            #[trigger] lists_actions_upto(lists, origin_x, origin_y, k)[i]) matches DeviceAction::DrawIndexed {
                count,
                first_index,
                ..
            } ==> first_index as int + count as int <= index_advance_before(lists, k)),
    decreases k,
{
    if k > 0 {
        lemma_lists_draws_bounded(lists, origin_x, origin_y, k - 1);
        lemma_index_advance_before_monotone(lists, 0, k - 1);
        lemma_index_advance_before_monotone(lists, k - 1, k);
        lemma_index_advance_before_monotone(lists, k, lists.len() as int);
        lemma_list_draws_bounded(
            lists[k - 1].commands@,
            origin_x,
            origin_y,
            index_advance_before(lists, k - 1),
            vertex_count_before(lists, k - 1),
            lists[k - 1].commands@.len() as int,
        );
        let prefix = lists_actions_upto(lists, origin_x, origin_y, k - 1);
        let tail = list_actions_upto(
            lists[k - 1].commands@,
            origin_x,
            origin_y,
            index_advance_before(lists, k - 1),
            vertex_count_before(lists, k - 1),
            lists[k - 1].commands@.len() as int,
        );
        assert forall|i: int| 0 <= i < (prefix + tail).len() implies ((#[trigger] (prefix
            + tail)[i]) matches DeviceAction::DrawIndexed { count, first_index, .. }
            ==> first_index as int + count as int <= index_advance_before(lists, k)) by {
            if i < prefix.len() {
                assert((prefix + tail)[i] == prefix[i]);
            } else {
                assert((prefix + tail)[i] == tail[i - prefix.len()]);
            }
        }
    }
}

/// Within-buffer draws: when every list's commands consume exactly its index
/// buffer and the frame fits the device's draw-argument widths, every
/// indexed draw the planner issues reads index positions that lie within the
/// staged index buffer of the frame.
pub proof fn lemma_draws_within_staged_indices(dd: DrawData)
    requires
        dd.fits_device_limits(),
        forall|m: int| 0 <= m < dd.lists@.len() ==> (#[trigger] dd.lists@[m]).commands_cover_indices(),
    ensures
        forall|i: int|
            0 <= i < interpret_actions(dd).len() ==> ((
            #[trigger] interpret_actions(dd)[i]) matches DeviceAction::DrawIndexed {
                count,
                first_index,
                ..
            } ==> first_index as int + count as int <= staged_indices(dd.lists@).len()),
{
    let lists = dd.lists@;
    lemma_lists_draws_bounded(lists, dd.origin_x, dd.origin_y, lists.len() as int);
    lemma_offset_accumulation(lists, dd.origin_x, dd.origin_y, lists.len() as int);
    lemma_staged_indices_len_upto(lists, lists.len() as int);
    assert(lists.take(lists.len() as int) =~= lists);
}

/// Index locality: when a list's indices refer only to its own vertices,
/// the cumulative base vertex the planner gives that list keeps every one of
/// its indices inside the list's own span of the staged vertices — in
/// particular, each refers to a staged vertex of the frame.
pub proof fn lemma_index_locality(lists: Seq<DrawList>, m: int, p: int)
    requires
        0 <= m < lists.len(),
        lists[m].indices_in_bounds(),
        0 <= p < lists[m].indices@.len(),
    ensures
        vertex_count_before(lists, m) + lists[m].indices@[p] < vertex_count_before(lists, m + 1),
        vertex_count_before(lists, m) + lists[m].indices@[p] < staged_vertices(lists).len(),
{
    lemma_vertex_count_before_monotone(lists, m + 1, lists.len() as int);
    lemma_staged_vertices_len_upto(lists, lists.len() as int);
    assert(lists.take(lists.len() as int) =~= lists);
}

} // verus!
