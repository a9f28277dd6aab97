use vstd::prelude::*;
use crate::geom::BlockPos;

verus! {

/// A chunk column's position, or an offset between two of them.
#[derive(Clone, Copy, Debug, PartialEq, Eq, Structural)]
pub struct ChunkPos {
    pub x: i32,
    pub z: i32,
}

/// The slot of each of the eight neighbouring chunks: north, south, east,
/// west, then north-east, south-east, south-west and north-west.
pub open spec fn spec_index_to_offset(i: int) -> Option<(int, int)> {
    if i == 0 {
        Some((0, -1))
    } else if i == 1 {
        Some((0, 1))
    } else if i == 2 {
        Some((1, 0))
    } else if i == 3 {
        Some((-1, 0))
    } else if i == 4 {
        Some((1, -1))
    } else if i == 5 {
        Some((1, 1))
    } else if i == 6 {
        Some((-1, 1))
    } else if i == 7 {
        Some((-1, -1))
    } else {
        None
    }
}

/// The slot of the neighbour at chunk offset (x, z); none for the chunk
/// itself and for chunks further away.
pub open spec fn spec_offset_to_index(x: int, z: int) -> Option<int> {
    if x == 0 && z == -1 {
        Some(0)
    } else if x == 0 && z == 1 {
        Some(1)
    } else if x == 1 && z == 0 {
        Some(2)
    } else if x == -1 && z == 0 {
        Some(3)
    } else if x == 1 && z == -1 {
        Some(4)
    } else if x == 1 && z == 1 {
        Some(5)
    } else if x == -1 && z == 1 {
        Some(6)
    } else if x == -1 && z == -1 {
        Some(7)
    } else {
        None
    }
}

/// The chunk offset of neighbour slot `index`.
pub fn index_to_offset(index: usize) -> (r: Option<ChunkPos>)
    ensures
        match r {
            Some(p) => spec_index_to_offset(index as int) == Some((p.x as int, p.z as int)),
            None => spec_index_to_offset(index as int) is None,
        },
{
    match index {
        0 => Some(ChunkPos { x: 0, z: -1 }),
        1 => Some(ChunkPos { x: 0, z: 1 }),
        2 => Some(ChunkPos { x: 1, z: 0 }),
        3 => Some(ChunkPos { x: -1, z: 0 }),
        4 => Some(ChunkPos { x: 1, z: -1 }),
        5 => Some(ChunkPos { x: 1, z: 1 }),
        6 => Some(ChunkPos { x: -1, z: 1 }),
        7 => Some(ChunkPos { x: -1, z: -1 }),
        _ => None,
    }
}

/// The neighbour slot of a chunk offset.
pub fn offset_to_index(offset: ChunkPos) -> (r: Option<usize>)
    ensures
        match r {
            Some(i) => spec_offset_to_index(offset.x as int, offset.z as int) == Some(i as int),
            None => spec_offset_to_index(offset.x as int, offset.z as int) is None,
        },
{
    if offset.x == 0 && offset.z == -1 {
        Some(0)
    } else if offset.x == 0 && offset.z == 1 {
        Some(1)
    } else if offset.x == 1 && offset.z == 0 {
        Some(2)
    } else if offset.x == -1 && offset.z == 0 {
        Some(3)
    } else if offset.x == 1 && offset.z == -1 {
        Some(4)
    } else if offset.x == 1 && offset.z == 1 {
        Some(5)
    } else if offset.x == -1 && offset.z == 1 {
        Some(6)
    } else if offset.x == -1 && offset.z == -1 {
        Some(7)
    } else {
        None
    }
}

/// The two tables are inverse to each other: each slot has one offset and
/// each neighbouring offset one slot.
pub proof fn lemma_offset_table_inverse(i: int, x: int, z: int)
    ensures
        spec_index_to_offset(i) == Some((x, z)) <==> spec_offset_to_index(x, z) == Some(i),
{
}

/// A 16×16×16 section: block-state ids, cell (x, y, z) at `(y * 16 + z) * 16 + x`.
#[derive(Debug)]
pub struct Section {
    pub states: Vec<u32>,
}

/// A chunk column: its sections from the bottom up, the lowest being
/// section number `min_section` (it spans world y `16 * min_section` to
/// `16 * min_section + 15`).
#[derive(Debug)]
pub struct Chunk {
    pub min_section: i32,
    pub sections: Vec<Section>,
}

pub open spec fn cell_index(x: int, y: int, z: int) -> int {
    (y * 16 + z) * 16 + x
}

/// The block-state id at column (x, z) of the chunk (both in 0..16) and
/// world height y; none above or below the stored sections.
pub open spec fn chunk_cell(c: Chunk, x: int, y: int, z: int) -> Option<u32> {
    let dy = y - 16 * c.min_section;
    let s = dy / 16;
    let idx = cell_index(x, dy % 16, z);
    if dy < 0 || s >= c.sections@.len() {
        None
    } else if idx < c.sections@[s].states@.len() {
        Some(c.sections@[s].states@[idx])
    } else {
        None
    }
}

impl Chunk {
    pub fn get(&self, x: i32, y: i32, z: i32) -> (r: Option<u32>)
        requires
            0 <= x < 16,
            0 <= z < 16,
        ensures
            r == chunk_cell(*self, x as int, y as int, z as int),
    {
        let dy: i64 = y as i64 - 16 * (self.min_section as i64);
        if dy < 0 {
            return None;
        }
        let d = dy as u64;
        let s = d / 16;
        if s >= self.sections.len() as u64 {
            return None;
        }
        let ly = d % 16;
        let idx = ((ly * 16 + z as u64) * 16 + x as u64) as usize;
        let section = &self.sections[s as usize];
        if idx < section.states.len() {
            Some(section.states[idx])
        } else {
            None
        }
    }
}

/// A chunk with copies of its eight neighbours (slots as in
/// `index_to_offset`), taken at one moment for one meshing pass.
#[derive(Debug)]
pub struct ChunkLocal {
    pub chunk: Chunk,
    pub neighbors: Vec<Option<Chunk>>,
}

/// The block-state id at `p`, whose x and z count from the chunk's corner
/// and may reach into a neighbour; none where no snapshot holds the cell.
pub open spec fn spec_get_block(v: ChunkLocal, p: BlockPos) -> Option<u32> {
    let cx = (p.x as int) / 16;
    let cz = (p.z as int) / 16;
    let lx = (p.x as int) % 16;
    let lz = (p.z as int) % 16;
    if cx == 0 && cz == 0 {
        chunk_cell(v.chunk, lx, p.y as int, lz)
    } else {
        match spec_offset_to_index(cx, cz) {
            Some(i) => if i < v.neighbors@.len() {
                match v.neighbors@[i] {
                    Some(c) => chunk_cell(c, lx, p.y as int, lz),
                    None => None,
                }
            } else {
                None
            },
            None => None,
        }
    }
}

/// The chunk offset of a block coordinate in -16..32, and the coordinate
/// within that chunk.
fn split_coord(v: i32) -> (r: (i32, i32))
    requires
        -16 <= v < 32,
    ensures
        r.0 == (v as int) / 16,
        r.1 == (v as int) % 16,
        0 <= r.1 < 16,
{
    if v < 0 {
        (-1, v + 16)
    } else if v < 16 {
        (0, v)
    } else {
        (1, v - 16)
    }
}

impl ChunkLocal {
    /// The block-state id at `pos` (x and z relative to this chunk, y world
    /// height), looked up in the neighbour that holds it.
    pub fn get_block(&self, pos: BlockPos) -> (r: Option<u32>)
        ensures
            r == spec_get_block(*self, pos),
    {
        if pos.x < -16 || pos.x >= 32 || pos.z < -16 || pos.z >= 32 {
            return None;
        }
        let (cx, lx) = split_coord(pos.x);
        let (cz, lz) = split_coord(pos.z);
        if cx == 0 && cz == 0 {
            return self.chunk.get(lx, pos.y, lz);
        }
        match offset_to_index(ChunkPos { x: cx, z: cz }) {
            Some(i) => {
                if i < self.neighbors.len() {
                    match &self.neighbors[i] {
                        Some(c) => c.get(lx, pos.y, lz),
                        None => None,
                    }
                } else {
                    None
                }
            },
            None => None,
        }
    }
}

/// An axis-aligned box of a collision shape, in the 0..16 space of a block.
#[derive(Clone, Copy, Debug, PartialEq, Eq, Structural)]
pub struct Aabb {
    pub min: BlockPos,
    pub max: BlockPos,
}

/// What the mesher reads of a block state: its name and properties (to
/// choose a model), whether it is air, whether it is opaque, and its
/// collision shape.
#[derive(Debug)]
pub struct BlockInfo {
    pub name: String,
    pub properties: Vec<(String, String)>,
    pub is_air: bool,
    pub opaque: bool,
    pub shape: Vec<Aabb>,
}

/// The block states, each at the index of its id.
#[derive(Debug)]
pub struct BlockTable {
    pub blocks: Vec<BlockInfo>,
}

pub open spec fn spec_block_info(t: BlockTable, id: Option<u32>) -> Option<BlockInfo> {
    match id {
        Some(i) => if (i as int) < t.blocks@.len() {
            Some(t.blocks@[i as int])
        } else {
            None
        },
        None => None,
    }
}

impl BlockTable {
    /// The block state with id `id`; unknown ids have none.
    pub fn get(&self, id: u32) -> (r: Option<&BlockInfo>)
        ensures
            match r {
                Some(b) => spec_block_info(*self, Some(id)) == Some(*b),
                None => spec_block_info(*self, Some(id)) is None,
            },
    {
        if (id as usize) < self.blocks.len() {
            Some(&self.blocks[id as usize])
        } else {
            None
        }
    }
}

} // verus!
