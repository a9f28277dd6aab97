use vstd::prelude::*;
use crate::assets::LoadedAssets;
use crate::chunk::{BlockTable, ChunkLocal, ChunkPos};
use crate::mesher::{mesh_section, quads_indexed, spec_mesh, MeshUpdate, SectionPos, SECTION_Y_LIMIT};

verus! {

/// What an input queue of the meshing worker holds at the moment it is
/// polled.
#[derive(Clone, Copy, Debug, PartialEq, Eq, Structural)]
pub enum QueueState {
    /// An update is waiting.
    Ready,
    /// Nothing is waiting, but more may come.
    Empty,
    /// Every sender is gone and nothing is left.
    Closed,
}

/// What the worker does next.
#[derive(Clone, Copy, Debug, PartialEq, Eq, Structural)]
pub enum WorkerAction {
    /// Take one update from the high-priority queue and mesh it.
    MeshHigh,
    /// Take one update from the low-priority queue and mesh it.
    MeshLow,
    /// Block until either queue has an update.
    Wait,
    /// End the loop: no input can arrive, or no one receives the output.
    Stop,
}

/// The worker's policy. Newly loaded chunks come first; a neighbour re-mesh
/// is taken only while no such chunk waits, and one at a time, so that the
/// queues are polled again after each. The worker blocks only when both
/// queues are empty, and stops when its output has no receiver or when both
/// inputs are closed and drained.
pub open spec fn spec_next_action(high: QueueState, low: QueueState, output_open: bool) -> WorkerAction {
    if !output_open {
        WorkerAction::Stop
    } else if high == QueueState::Ready {
        WorkerAction::MeshHigh
    } else if low == QueueState::Ready {
        WorkerAction::MeshLow
    } else if high == QueueState::Closed && low == QueueState::Closed {
        WorkerAction::Stop
    } else {
        WorkerAction::Wait
    }
}

pub fn next_action(high: QueueState, low: QueueState, output_open: bool) -> (r: WorkerAction)
    ensures
        r == spec_next_action(high, low, output_open),
{
    if !output_open {
        WorkerAction::Stop
    } else if high == QueueState::Ready {
        WorkerAction::MeshHigh
    } else if low == QueueState::Ready {
        WorkerAction::MeshLow
    } else if high == QueueState::Closed && low == QueueState::Closed {
        WorkerAction::Stop
    } else {
        WorkerAction::Wait
    }
}

/// A waiting high-priority update always goes first, and a low-priority
/// one is taken only when no high-priority one waits; the worker never
/// waits while either queue holds an update.
pub proof fn lemma_priority(high: QueueState, low: QueueState)
    ensures
        high == QueueState::Ready ==> spec_next_action(high, low, true) == WorkerAction::MeshHigh,
        spec_next_action(high, low, true) == WorkerAction::MeshLow ==> high != QueueState::Ready
            && low == QueueState::Ready,
        spec_next_action(high, low, true) == WorkerAction::Wait ==> high != QueueState::Ready
            && low != QueueState::Ready,
{
}

/// The coordinates of the sections of chunk `pos`, bottom first, the lowest
/// being section `min_section`.
pub open spec fn spec_section_pos(pos: ChunkPos, min_section: i32, s: int) -> SectionPos {
    SectionPos { x: pos.x, y: (min_section + s) as i32, z: pos.z }
}

/// Meshes every section of the chunk in `view`, in increasing y order.
pub fn mesh_chunk(
    pos: ChunkPos,
    view: &ChunkLocal,
    blocks: &BlockTable,
    assets: &LoadedAssets,
) -> (r: Vec<MeshUpdate>)
    requires
        assets.wf(),
        -SECTION_Y_LIMIT <= view.chunk.min_section,
        view.chunk.min_section + view.chunk.sections@.len() <= SECTION_Y_LIMIT,
    ensures
        r@.len() == view.chunk.sections@.len(),
        forall|s: int|
            0 <= s < r@.len() ==> {
                &&& (#[trigger] r@[s]).pos == spec_section_pos(pos, view.chunk.min_section, s)
                &&& r@[s].vertices@ == spec_mesh(*view, *blocks, *assets, r@[s].pos)
                &&& quads_indexed(r@[s].vertices@, r@[s].indices@)
            },
{
    let n = view.chunk.sections.len();
    let min = view.chunk.min_section;
    let mut out: Vec<MeshUpdate> = Vec::new();
    let mut s: usize = 0;
    while s < n
        invariant
            n == view.chunk.sections@.len(),
            min == view.chunk.min_section,
            assets.wf(),
            -SECTION_Y_LIMIT <= min,
            min + n <= SECTION_Y_LIMIT,
            s <= n,
            out@.len() == s,
            forall|t: int|
                0 <= t < s ==> {
                    &&& (#[trigger] out@[t]).pos == spec_section_pos(pos, min, t)
                    &&& out@[t].vertices@ == spec_mesh(*view, *blocks, *assets, out@[t].pos)
                    &&& quads_indexed(out@[t].vertices@, out@[t].indices@)
                },
        decreases n - s,
    {
        let sp = SectionPos { x: pos.x, y: min + s as i32, z: pos.z };
        let m = mesh_section(sp, view, blocks, assets);
        out.push(m);
        s = s + 1;
    }
    out
}

} // verus!
