use vstd::prelude::*;
use crate::assets::FaceDesc;
use crate::chunk::{spec_block_info, spec_get_block, Aabb, BlockTable, ChunkLocal};
use crate::geom::{spec_normal, spec_opposite, BlockPos, Direction};

verus! {

/// Bound on the coordinates of positions the resolver probes around, so that
/// a neighbour's coordinates stay in range.
pub const POS_LIMIT: i32 = 0x1000_0000;

pub open spec fn pos_in_range(p: BlockPos) -> bool {
    -POS_LIMIT <= p.x <= POS_LIMIT && -POS_LIMIT <= p.y <= POS_LIMIT && -POS_LIMIT <= p.z
        <= POS_LIMIT
}

pub open spec fn pos_add(p: BlockPos, q: BlockPos) -> BlockPos {
    BlockPos { x: (p.x + q.x) as i32, y: (p.y + q.y) as i32, z: (p.z + q.z) as i32 }
}

/// Ambient-occlusion level of a vertex from its two edge neighbours and its
/// corner neighbour: 0 when both edges are solid, else 3 less one for a
/// solid edge and one for a solid corner.
pub open spec fn spec_ao(side1: bool, side2: bool, corner: bool) -> u32 {
    if side1 && side2 {
        0
    } else {
        (3 - ((if side1 || side2 { 1int } else { 0int }) + (if corner { 1int } else { 0int }))) as u32
    }
}

pub fn ao(side1: bool, side2: bool, corner: bool) -> (r: u32)
    ensures
        r == spec_ao(side1, side2, corner),
        r <= 3,
{
    if side1 && side2 {
        0
    } else {
        3 - ((side1 || side2) as u32 + corner as u32)
    }
}

/// The level is the same with the two edge neighbours swapped; it is 0
/// exactly when both are solid, and 3 exactly when no neighbour is solid.
pub proof fn lemma_ao_levels(side1: bool, side2: bool, corner: bool)
    ensures
        spec_ao(side1, side2, corner) == spec_ao(side2, side1, corner),
        spec_ao(side1, side2, corner) == 0 <==> side1 && side2,
        spec_ao(side1, side2, corner) == 3 <==> !side1 && !side2 && !corner,
        spec_ao(side1, side2, corner) <= 3,
{
}

/// Whether box `b` reaches the side of the block in direction `d` and covers
/// cell (u, v) of that side.
pub open spec fn box_covers(b: Aabb, d: Direction, u: int, v: int) -> bool {
    match d {
        Direction::Up => b.max.y >= 16 && b.min.x <= u < b.max.x && b.min.z <= v < b.max.z,
        Direction::Down => b.min.y <= 0 && b.min.x <= u < b.max.x && b.min.z <= v < b.max.z,
        Direction::South => b.max.z >= 16 && b.min.x <= u < b.max.x && b.min.y <= v < b.max.y,
        Direction::North => b.min.z <= 0 && b.min.x <= u < b.max.x && b.min.y <= v < b.max.y,
        Direction::East => b.max.x >= 16 && b.min.y <= u < b.max.y && b.min.z <= v < b.max.z,
        Direction::West => b.min.x <= 0 && b.min.y <= u < b.max.y && b.min.z <= v < b.max.z,
    }
}

/// Whether some box of the shape covers cell (u, v) of the side `d`.
pub open spec fn shape_covers(s: Seq<Aabb>, d: Direction, u: int, v: int) -> bool {
    exists|i: int| 0 <= i < s.len() && box_covers(#[trigger] s[i], d, u, v)
}

/// Whether the side `d` of a block with shape `own` is hidden by a neighbour
/// of shape `other`: no cell of the 16×16 side is covered by `own` and not by
/// the neighbour's facing side.
pub open spec fn face_hidden_by(own: Seq<Aabb>, d: Direction, other: Seq<Aabb>) -> bool {
    forall|u: int, v: int|
        0 <= u < 16 && 0 <= v < 16 && #[trigger] shape_covers(own, d, u, v) ==> shape_covers(
            other,
            spec_opposite(d),
            u,
            v,
        )
}

fn box_covers_exec(b: &Aabb, d: Direction, u: i32, v: i32) -> (r: bool)
    ensures
        r == box_covers(*b, d, u as int, v as int),
{
    match d {
        Direction::Up => b.max.y >= 16 && b.min.x <= u && u < b.max.x && b.min.z <= v && v < b.max.z,
        Direction::Down => b.min.y <= 0 && b.min.x <= u && u < b.max.x && b.min.z <= v && v
            < b.max.z,
        Direction::South => b.max.z >= 16 && b.min.x <= u && u < b.max.x && b.min.y <= v && v
            < b.max.y,
        Direction::North => b.min.z <= 0 && b.min.x <= u && u < b.max.x && b.min.y <= v && v
            < b.max.y,
        Direction::East => b.max.x >= 16 && b.min.y <= u && u < b.max.y && b.min.z <= v && v
            < b.max.z,
        Direction::West => b.min.x <= 0 && b.min.y <= u && u < b.max.y && b.min.z <= v && v
            < b.max.z,
    }
}

pub fn shape_covers_cell(s: &Vec<Aabb>, d: Direction, u: i32, v: i32) -> (r: bool)
    ensures
        r == shape_covers(s@, d, u as int, v as int),
{
    let mut i: usize = 0;
    while i < s.len()
        invariant
            i <= s@.len(),
            forall|j: int| 0 <= j < i ==> !box_covers(#[trigger] s@[j], d, u as int, v as int),
        decreases s@.len() - i,
    {
        if box_covers_exec(&s[i], d, u, v) {
            return true;
        }
        i = i + 1;
    }
    false
}

/// Whether the side `d` of a block of shape `own` is hidden by a neighbour
/// of shape `other`, checked on every cell of the side.
pub fn face_hidden(own: &Vec<Aabb>, d: Direction, other: &Vec<Aabb>) -> (r: bool)
    ensures
        r == face_hidden_by(own@, d, other@),
{
    let od = d.opposite();
    let mut u: i32 = 0;
    while u < 16
        invariant
            0 <= u <= 16,
            od == spec_opposite(d),
            forall|a: int, b: int|
                0 <= a < u && 0 <= b < 16 && #[trigger] shape_covers(own@, d, a, b) ==> shape_covers(
                    other@,
                    od,
                    a,
                    b,
                ),
        decreases 16 - u,
    {
        let mut v: i32 = 0;
        while v < 16
            invariant
                0 <= u < 16,
                0 <= v <= 16,
                od == spec_opposite(d),
                forall|a: int, b: int|
                    0 <= a < u && 0 <= b < 16 && #[trigger] shape_covers(own@, d, a, b)
                        ==> shape_covers(other@, od, a, b),
                forall|b: int|
                    0 <= b < v && #[trigger] shape_covers(own@, d, u as int, b) ==> shape_covers(
                        other@,
                        od,
                        u as int,
                        b,
                    ),
            decreases 16 - v,
        {
            if shape_covers_cell(own, d, u, v) && !shape_covers_cell(other, od, u, v) {
                return false;
            }
            v = v + 1;
        }
        u = u + 1;
    }
    true
}

/// Whether the neighbour in direction `d` of `pos` is opaque and hides that
/// side of a block of shape `own`.
pub open spec fn neighbor_hides(
    view: ChunkLocal,
    blocks: BlockTable,
    pos: BlockPos,
    own: Seq<Aabb>,
    d: Direction,
) -> bool {
    match spec_block_info(blocks, spec_get_block(view, pos_add(pos, spec_normal(d)))) {
        Some(b) => b.opaque && face_hidden_by(own, d, b.shape@),
        None => false,
    }
}

/// Whether a face is skipped: only a face with a cull direction can be, and
/// only when the neighbour that way is opaque and covers it.
pub open spec fn spec_cull(
    face: FaceDesc,
    pos: BlockPos,
    own: Seq<Aabb>,
    view: ChunkLocal,
    blocks: BlockTable,
) -> bool {
    match face.cullface {
        None => false,
        Some(d) => neighbor_hides(view, blocks, pos, own, d),
    }
}

fn offset_pos(p: BlockPos, dx: i32, dy: i32, dz: i32) -> (r: BlockPos)
    requires
        pos_in_range(p),
        -1 <= dx <= 1 && -1 <= dy <= 1 && -1 <= dz <= 1,
    ensures
        r == pos_add(p, BlockPos { x: dx, y: dy, z: dz }),
{
    BlockPos { x: p.x + dx, y: p.y + dy, z: p.z + dz }
}

/// Decides whether to skip a face of the block at `pos`, of shape `own`.
pub fn cull(
    face: &FaceDesc,
    pos: BlockPos,
    own: &Vec<Aabb>,
    view: &ChunkLocal,
    blocks: &BlockTable,
) -> (r: bool)
    requires
        pos_in_range(pos),
    ensures
        r == spec_cull(*face, pos, own@, *view, *blocks),
{
    match face.cullface {
        None => false,
        Some(d) => {
            let n = d.normal();
            let np = offset_pos(pos, n.x, n.y, n.z);
            match view.get_block(np) {
                None => false,
                Some(id) => match blocks.get(id) {
                    None => false,
                    Some(b) => b.opaque && face_hidden(own, d, &b.shape),
                },
            }
        },
    }
}

/// Whether a box fills the whole block.
pub open spec fn box_full(b: Aabb) -> bool {
    b.min.x <= 0 && b.min.y <= 0 && b.min.z <= 0 && b.max.x >= 16 && b.max.y >= 16 && b.max.z >= 16
}

/// Whether a block state's shape fills its whole cell.
pub open spec fn shape_full(s: Seq<Aabb>) -> bool {
    exists|i: int| 0 <= i < s.len() && box_full(#[trigger] s[i])
}

pub fn is_shape_full(s: &Vec<Aabb>) -> (r: bool)
    ensures
        r == shape_full(s@),
{
    let mut i: usize = 0;
    while i < s.len()
        invariant
            i <= s@.len(),
            forall|j: int| 0 <= j < i ==> !box_full(#[trigger] s@[j]),
        decreases s@.len() - i,
    {
        let b = s[i];
        if b.min.x <= 0 && b.min.y <= 0 && b.min.z <= 0 && b.max.x >= 16 && b.max.y >= 16 && b.max.z
            >= 16 {
            return true;
        }
        i = i + 1;
    }
    false
}

/// Whether the cell at `p` holds a block whose shape fills it.
pub open spec fn spec_solid(view: ChunkLocal, blocks: BlockTable, p: BlockPos) -> bool {
    match spec_block_info(blocks, spec_get_block(view, p)) {
        Some(b) => shape_full(b.shape@),
        None => false,
    }
}

pub fn is_solid(view: &ChunkLocal, blocks: &BlockTable, p: BlockPos) -> (r: bool)
    ensures
        r == spec_solid(*view, *blocks, p),
{
    match view.get_block(p) {
        None => false,
        Some(id) => match blocks.get(id) {
            None => false,
            Some(b) => is_shape_full(&b.shape),
        },
    }
}

/// A 0/1 corner component as a step of -1 or +1.
pub open spec fn step(c: i32) -> i32 {
    if c == 0 {
        -1i32
    } else {
        1i32
    }
}

/// The ambient-occlusion level of the vertex at corner `offset` (0/1
/// components) of a face with normal `normal` of the block at `pos`. The two
/// edge probes lie along the axes across the normal, the corner probe on the
/// diagonal, each one step towards the corner.
pub open spec fn spec_compute_ao(
    view: ChunkLocal,
    blocks: BlockTable,
    pos: BlockPos,
    offset: BlockPos,
    normal: BlockPos,
) -> u32 {
    let sx = step(offset.x);
    let sy = step(offset.y);
    let sz = step(offset.z);
    let corner = spec_solid(view, blocks, pos_add(pos, BlockPos { x: sx, y: sy, z: sz }));
    if normal.x != 0 {
        spec_ao(
            spec_solid(view, blocks, pos_add(pos, BlockPos { x: sx, y: 0, z: sz })),
            spec_solid(view, blocks, pos_add(pos, BlockPos { x: sx, y: sy, z: 0 })),
            corner,
        )
    } else if normal.y != 0 {
        spec_ao(
            spec_solid(view, blocks, pos_add(pos, BlockPos { x: 0, y: sy, z: sz })),
            spec_solid(view, blocks, pos_add(pos, BlockPos { x: sx, y: sy, z: 0 })),
            corner,
        )
    } else {
        spec_ao(
            spec_solid(view, blocks, pos_add(pos, BlockPos { x: 0, y: sy, z: sz })),
            spec_solid(view, blocks, pos_add(pos, BlockPos { x: sx, y: 0, z: sz })),
            corner,
        )
    }
}

pub fn compute_ao(
    pos: BlockPos,
    offset: BlockPos,
    normal: BlockPos,
    view: &ChunkLocal,
    blocks: &BlockTable,
) -> (r: u32)
    requires
        pos_in_range(pos),
    ensures
        r == spec_compute_ao(*view, *blocks, pos, offset, normal),
        r <= 3,
{
    let sx: i32 = if offset.x == 0 { -1 } else { 1 };
    let sy: i32 = if offset.y == 0 { -1 } else { 1 };
    let sz: i32 = if offset.z == 0 { -1 } else { 1 };
    let corner = is_solid(view, blocks, offset_pos(pos, sx, sy, sz));
    if normal.x != 0 {
        let side1 = is_solid(view, blocks, offset_pos(pos, sx, 0, sz));
        let side2 = is_solid(view, blocks, offset_pos(pos, sx, sy, 0));
        ao(side1, side2, corner)
    } else if normal.y != 0 {
        let side1 = is_solid(view, blocks, offset_pos(pos, 0, sy, sz));
        let side2 = is_solid(view, blocks, offset_pos(pos, sx, sy, 0));
        ao(side1, side2, corner)
    } else {
        let side1 = is_solid(view, blocks, offset_pos(pos, 0, sy, sz));
        let side2 = is_solid(view, blocks, offset_pos(pos, sx, 0, sz));
        ao(side1, side2, corner)
    }
}

} // verus!
