//! Plain-value model of one frame's draw data.
//!
//! The widget toolkit hands the orchestrator a frame description: a display
//! origin and size, and a sequence of draw lists, each carrying geometry and
//! an ordered sequence of draw commands. The toolkit's own representation
//! uses device- and floating-point types; the orchestration logic only ever
//! reads integer coordinates and counts, so the model holds exactly those as
//! plain values.

use vstd::prelude::*;

verus! {

/// A window rectangle in screen coordinates, as reported by the device
/// surface. Nothing is assumed of it: a minimized host may report anything.
#[derive(Clone, Copy, PartialEq, Eq, Structural, Debug)]
pub struct WindowRect {
    pub left: i32,
    pub top: i32,
    pub right: i32,
    pub bottom: i32,
}

/// A clip rectangle attached to a draw command, in display coordinates:
/// two corner points, not an origin and an extent.
#[derive(Clone, Copy, PartialEq, Eq, Structural, Debug)]
pub struct ClipRect {
    pub left: i32,
    pub top: i32,
    pub right: i32,
    pub bottom: i32,
}

/// One vertex record as the toolkit produces it: a screen position, a
/// texture coordinate and a packed color. Position and texture coordinates
/// are floating-point values to the device; the orchestration never
/// interprets them, so they are carried as raw bit patterns.
#[derive(Clone, Copy, PartialEq, Eq, Structural, Debug)]
pub struct Vertex {
    pub pos_x_bits: u32,
    pub pos_y_bits: u32,
    pub uv_x_bits: u32,
    pub uv_y_bits: u32,
    pub color: u32,
}

/// One instruction within a draw list.
#[derive(Clone, Copy, PartialEq, Eq, Structural, Debug)]
pub enum DrawCommand {
    /// Draw `count` indices starting at the current cumulative index offset,
    /// clipped to `clip`.
    Elements { count: u32, clip: ClipRect },
    /// The toolkit signals that device state must be reinstalled, e.g. after
    /// an embedded callback may have changed it.
    ResetRenderState,
    /// An escape hatch: a host-side procedure, identified by `token`, is to
    /// be invoked directly against the underlying draw list, bypassing
    /// normal interpretation.
    RawCallback { token: usize },
}

/// One batch of geometry plus the commands that consume it.
#[derive(Debug)]
pub struct DrawList {
    pub vertices: Vec<Vertex>,
    pub indices: Vec<u16>,
    pub commands: Vec<DrawCommand>,
}

/// One frame's draw data: display origin and size in display coordinates,
/// and the ordered draw lists. Valid only for the duration of one frame.
#[derive(Debug)]
pub struct DrawData {
    pub origin_x: i32,
    pub origin_y: i32,
    pub width: i32,
    pub height: i32,
    pub lists: Vec<DrawList>,
}

/// The one recoverable per-frame failure: the frame is abandoned, no draw
/// call is issued, and the caller is expected to retry next frame.
#[derive(Clone, Copy, PartialEq, Eq, Structural, Debug)]
pub enum RenderError {
    /// Both display dimensions were non-positive after the frame was built.
    DegenerateDisplaySize { width: i32, height: i32 },
}

impl DrawCommand {
    /// How far a command advances the cumulative index offset.
    pub open spec fn index_advance(self) -> int {
        match self {
            DrawCommand::Elements { count, .. } => count as int,
            _ => 0,
        }
    }
}

/// Sum of the index-offset advances of the first `j` commands of `cmds`.
pub open spec fn index_advance_upto(cmds: Seq<DrawCommand>, j: int) -> int
    decreases j,
{
    if j <= 0 {
        0
    } else {
        index_advance_upto(cmds, j - 1) + cmds[j - 1].index_advance()
    }
}

impl DrawList {
    /// Total index-offset advance of all commands in this list.
    pub open spec fn index_advance(self) -> int {
        index_advance_upto(self.commands@, self.commands@.len() as int)
    }

    /// Toolkit invariant: the list's commands consume exactly its index
    /// buffer, no more and no less.
    pub open spec fn commands_cover_indices(self) -> bool {
        self.index_advance() == self.indices@.len()
    }

    /// Toolkit invariant: every index refers to a vertex of the same list.
    pub open spec fn indices_in_bounds(self) -> bool {
        forall|i: int|
            0 <= i < self.indices@.len() ==> (self.indices@[i] as int) < self.vertices@.len()
    }
}

/// Cumulative index-offset advance of the first `k` lists.
pub open spec fn index_advance_before(lists: Seq<DrawList>, k: int) -> int
    decreases k,
{
    if k <= 0 {
        0
    } else {
        index_advance_before(lists, k - 1) + lists[k - 1].index_advance()
    }
}

/// Cumulative vertex count of the first `k` lists.
pub open spec fn vertex_count_before(lists: Seq<DrawList>, k: int) -> int
    decreases k,
{
    if k <= 0 {
        0
    } else {
        vertex_count_before(lists, k - 1) + lists[k - 1].vertices@.len()
    }
}

/// Sum of the index-buffer lengths of the first `k` lists.
pub open spec fn index_len_before(lists: Seq<DrawList>, k: int) -> int
    decreases k,
{
    if k <= 0 {
        0
    } else {
        index_len_before(lists, k - 1) + lists[k - 1].indices@.len()
    }
}

impl DrawData {
    /// Degenerate frame: both display dimensions non-positive. A frame with
    /// one positive dimension is still rendered; the rejection is a
    /// conjunction by design.
    pub open spec fn degenerate(self) -> bool {
        self.width <= 0 && self.height <= 0
    }

    /// The device's indexed-draw call takes a 32-bit start index and a
    /// non-negative 32-bit signed base vertex, so a frame's cumulative
    /// offsets must fit those widths.
    pub open spec fn fits_device_limits(self) -> bool {
        &&& index_advance_before(self.lists@, self.lists@.len() as int) <= u32::MAX
        &&& vertex_count_before(self.lists@, self.lists@.len() as int) <= i32::MAX
    }
}

/// The partial sums of index advances within one list never decrease.
pub proof fn lemma_index_advance_upto_monotone(cmds: Seq<DrawCommand>, j1: int, j2: int)
    requires
        0 <= j1 <= j2,
    ensures
        index_advance_upto(cmds, j1) <= index_advance_upto(cmds, j2),
    decreases j2,
{
    if j1 < j2 {
        lemma_index_advance_upto_monotone(cmds, j1, j2 - 1);
    }
}

/// The cumulative index advance over lists never decreases.
pub proof fn lemma_index_advance_before_monotone(lists: Seq<DrawList>, k1: int, k2: int)
    requires
        0 <= k1 <= k2,
    ensures
        index_advance_before(lists, k1) <= index_advance_before(lists, k2),
    decreases k2,
{
    if k1 < k2 {
        lemma_index_advance_before_monotone(lists, k1, k2 - 1);
        lemma_index_advance_upto_monotone(lists[k2 - 1].commands@, 0, lists[k2 - 1].commands@.len() as int);
    }
}

/// The cumulative vertex count over lists never decreases.
pub proof fn lemma_vertex_count_before_monotone(lists: Seq<DrawList>, k1: int, k2: int)
    requires
        0 <= k1 <= k2,
    ensures
        vertex_count_before(lists, k1) <= vertex_count_before(lists, k2),
    decreases k2,
{
    if k1 < k2 {
        lemma_vertex_count_before_monotone(lists, k1, k2 - 1);
    }
}

/// Decides whether a frame's cumulative counts fit the widths of the
/// device's indexed-draw arguments; the planner requires this of its input.
pub fn check_device_limits(dd: &DrawData) -> (ok: bool)
    ensures
        ok == dd.fits_device_limits(),
{
    let mut idx_total: u64 = 0;
    let mut vtx_total: u64 = 0;
    let mut k: usize = 0;
    while k < dd.lists.len()
        invariant
            0 <= k <= dd.lists@.len(),
            idx_total == index_advance_before(dd.lists@, k as int),
            vtx_total == vertex_count_before(dd.lists@, k as int),
            idx_total <= u32::MAX,
            vtx_total <= i32::MAX,
        decreases dd.lists@.len() - k,
    {
        let list = &dd.lists[k];
        let mut j: usize = 0;
        while j < list.commands.len()
            invariant
                0 <= j <= list.commands@.len(),
                list == dd.lists@[k as int],
                0 <= k < dd.lists@.len(),
                idx_total == index_advance_before(dd.lists@, k as int) + index_advance_upto(
                    list.commands@,
                    j as int,
                ),
                idx_total <= u32::MAX,
            decreases list.commands@.len() - j,
        {
            let advance: u64 = match list.commands[j] {
                DrawCommand::Elements { count, .. } => count as u64,
                _ => 0,
            };
            idx_total = idx_total + advance;
            if idx_total > u32::MAX as u64 {
                proof {
                    lemma_index_advance_upto_monotone(
                        list.commands@,
                        j + 1,
                        list.commands@.len() as int,
                    );
                    lemma_index_advance_before_monotone(dd.lists@, k + 1, dd.lists@.len() as int);
                }
                return false;
            }
            j = j + 1;
        }
        if list.vertices.len() > i32::MAX as usize {
            proof {
                lemma_vertex_count_before_monotone(dd.lists@, k + 1, dd.lists@.len() as int);
            }
            return false;
        }
        vtx_total = vtx_total + list.vertices.len() as u64;
        if vtx_total > i32::MAX as u64 {
            proof {
                lemma_vertex_count_before_monotone(dd.lists@, k + 1, dd.lists@.len() as int);
            }
            return false;
        }
        k = k + 1;
    }
    true
}

} // verus!
