use vstd::prelude::*;
use crate::assets::{chain_elements, cube_wf, spec_face, Cube, FaceDesc, LoadedAssets};
use crate::block_state::{first_desc, predicate_holds, BlockRenderState, Variant, VariantDesc, Variants};
use crate::chunk::{spec_block_info, spec_get_block, BlockInfo, BlockTable, ChunkLocal};
use crate::geom::{spec_corner, spec_mesh_direction, spec_normal, spec_opposite, BlockPos, Direction, FACE_COUNT};
use crate::mesher::{
    block_of, block_vertices, cell_of, cube_vertices, elements_vertices, face_vertices, quad_indices,
    quads_indexed, resolve_block, section_vertices, spec_mesh, spec_vertex, MeshUpdate, SectionPos,
    Vertex, QUADS_PER_BATCH, SECTION_BLOCKS,
};
use crate::occlusion::{box_full, neighbor_hides, pos_add};

verus! {

/// Number of faces that `cube` declares among the first `k` in mesh order.
pub open spec fn cube_face_count(cube: Cube, k: int) -> nat
    decreases k,
{
    if k <= 0 {
        0
    } else {
        cube_face_count(cube, k - 1) + if spec_face(cube, spec_mesh_direction(k - 1)) is Some {
            1nat
        } else {
            0nat
        }
    }
}

/// Number of faces declared by the first `n` elements.
pub open spec fn elements_face_count(es: Seq<Cube>, n: int) -> nat
    decreases n,
{
    if n <= 0 {
        0
    } else {
        elements_face_count(es, n - 1) + cube_face_count(es[n - 1], FACE_COUNT as int)
    }
}

/// Whether the face of `cube` in direction `d`, if declared, names a cull
/// direction.
pub open spec fn face_cullable(cube: Cube, d: Direction) -> bool {
    match spec_face(cube, d) {
        Some(f) => f.cullface is Some,
        None => true,
    }
}

/// Whether every face declared by the elements names a cull direction.
pub open spec fn all_faces_cullable(es: Seq<Cube>) -> bool {
    forall|i: int, d: Direction| 0 <= i < es.len() ==> #[trigger] face_cullable(es[i], d)
}

/// Whether the cell at `p` hides nothing: no snapshot holds it, or its block
/// is not opaque (air, for one).
pub open spec fn open_cell(view: ChunkLocal, blocks: BlockTable, p: BlockPos) -> bool {
    match spec_block_info(blocks, spec_get_block(view, p)) {
        Some(b) => !b.opaque,
        None => true,
    }
}

/// Whether the cell at `p` draws nothing of its own: no snapshot holds it,
/// or it holds air.
pub open spec fn empty_cell(view: ChunkLocal, blocks: BlockTable, p: BlockPos) -> bool {
    match spec_block_info(blocks, spec_get_block(view, p)) {
        Some(b) => b.is_air,
        None => true,
    }
}

/// Whether the neighbour of `p` in direction `d` is open.
pub open spec fn open_neighbor(view: ChunkLocal, blocks: BlockTable, p: BlockPos, d: Direction) -> bool {
    open_cell(view, blocks, pos_add(p, spec_normal(d)))
}

proof fn lemma_cube_hidden(
    view: ChunkLocal,
    blocks: BlockTable,
    assets: LoadedAssets,
    chain: Seq<usize>,
    info: BlockInfo,
    p: BlockPos,
    l: BlockPos,
    cube: Cube,
    k: int,
)
    requires
        0 <= k <= FACE_COUNT,
        forall|d: Direction| #[trigger] face_cullable(cube, d),
        forall|d: Direction| #[trigger] neighbor_hides(view, blocks, p, info.shape@, d),
    ensures
        cube_vertices(view, blocks, assets, chain, info, p, l, cube, k) == Seq::<Vertex>::empty(),
    decreases k,
{
    if k > 0 {
        lemma_cube_hidden(view, blocks, assets, chain, info, p, l, cube, k - 1);
        let d = spec_mesh_direction(k - 1);
        assert(face_cullable(cube, d));
        if let Some(f) = spec_face(cube, d) {
            let cd = f.cullface->Some_0;
            assert(neighbor_hides(view, blocks, p, info.shape@, cd));
        }
        assert(Seq::<Vertex>::empty() + Seq::<Vertex>::empty() =~= Seq::<Vertex>::empty());
    }
}

proof fn lemma_elements_hidden(
    view: ChunkLocal,
    blocks: BlockTable,
    assets: LoadedAssets,
    chain: Seq<usize>,
    info: BlockInfo,
    p: BlockPos,
    l: BlockPos,
    es: Seq<Cube>,
    n: int,
)
    requires
        0 <= n <= es.len(),
        all_faces_cullable(es),
        forall|d: Direction| #[trigger] neighbor_hides(view, blocks, p, info.shape@, d),
    ensures
        elements_vertices(view, blocks, assets, chain, info, p, l, es, n) == Seq::<Vertex>::empty(),
    decreases n,
{
    if n > 0 {
        lemma_elements_hidden(view, blocks, assets, chain, info, p, l, es, n - 1);
        assert forall|d: Direction| #[trigger] face_cullable(es[n - 1], d) by {
            assert(face_cullable(es[n - 1], d));
        }
        lemma_cube_hidden(view, blocks, assets, chain, info, p, l, es[n - 1], FACE_COUNT as int);
        assert(Seq::<Vertex>::empty() + Seq::<Vertex>::empty() =~= Seq::<Vertex>::empty());
    }
}

proof fn lemma_enclosed_block(
    view: ChunkLocal,
    blocks: BlockTable,
    assets: LoadedAssets,
    p: BlockPos,
    l: BlockPos,
    info: BlockInfo,
    chain: Seq<usize>,
    es: Vec<Cube>,
)
    requires
        resolve_block(view, blocks, assets, p) == Some((info, chain)),
        chain_elements(assets.block_models@, chain, 0) == Some(es),
        all_faces_cullable(es@),
        forall|d: Direction| #[trigger] neighbor_hides(view, blocks, p, info.shape@, d),
    ensures
        block_vertices(view, blocks, assets, p, l) == Seq::<Vertex>::empty(),
{
    lemma_elements_hidden(view, blocks, assets, chain, info, p, l, es@, es@.len() as int);
}

proof fn lemma_cube_open(
    view: ChunkLocal,
    blocks: BlockTable,
    assets: LoadedAssets,
    chain: Seq<usize>,
    info: BlockInfo,
    p: BlockPos,
    l: BlockPos,
    cube: Cube,
    k: int,
)
    requires
        0 <= k <= FACE_COUNT,
        forall|d: Direction| #[trigger] open_neighbor(view, blocks, p, d),
    ensures
        cube_vertices(view, blocks, assets, chain, info, p, l, cube, k).len() == 4 * cube_face_count(cube, k),
    decreases k,
{
    if k > 0 {
        lemma_cube_open(view, blocks, assets, chain, info, p, l, cube, k - 1);
        let d = spec_mesh_direction(k - 1);
        if let Some(f) = spec_face(cube, d) {
            if let Some(cd) = f.cullface {
                assert(open_neighbor(view, blocks, p, cd));
            }
        }
    }
}

proof fn lemma_elements_open(
    view: ChunkLocal,
    blocks: BlockTable,
    assets: LoadedAssets,
    chain: Seq<usize>,
    info: BlockInfo,
    p: BlockPos,
    l: BlockPos,
    es: Seq<Cube>,
    n: int,
)
    requires
        0 <= n <= es.len(),
        forall|d: Direction| #[trigger] open_neighbor(view, blocks, p, d),
    ensures
        elements_vertices(view, blocks, assets, chain, info, p, l, es, n).len() == 4 * elements_face_count(es, n),
    decreases n,
{
    if n > 0 {
        lemma_elements_open(view, blocks, assets, chain, info, p, l, es, n - 1);
        lemma_cube_open(view, blocks, assets, chain, info, p, l, es[n - 1], FACE_COUNT as int);
    }
}

proof fn lemma_open_block(
    view: ChunkLocal,
    blocks: BlockTable,
    assets: LoadedAssets,
    p: BlockPos,
    l: BlockPos,
    info: BlockInfo,
    chain: Seq<usize>,
    es: Vec<Cube>,
)
    requires
        resolve_block(view, blocks, assets, p) == Some((info, chain)),
        chain_elements(assets.block_models@, chain, 0) == Some(es),
        forall|d: Direction| #[trigger] open_neighbor(view, blocks, p, d),
    ensures
        block_vertices(view, blocks, assets, p, l).len() == 4 * elements_face_count(es@, es@.len() as int),
{
    lemma_elements_open(view, blocks, assets, chain, info, p, l, es@, es@.len() as int);
}

/// Quad `q` of an indexed mesh has six indices, and they refer only to its
/// own four vertices: 4q, 4q+1, 4q+2, 4q, 4q+2, 4q+3 (modulo 2^16).
pub proof fn lemma_quad_indices(n: nat, q: int)
    requires
        0 <= q < n,
    ensures
        quad_indices(n).len() == 6 * n,
        quad_indices(n)[6 * q] == ((4 * q) % 65536) as u16,
        quad_indices(n)[6 * q + 1] == ((4 * q + 1) % 65536) as u16,
        quad_indices(n)[6 * q + 2] == ((4 * q + 2) % 65536) as u16,
        quad_indices(n)[6 * q + 3] == ((4 * q) % 65536) as u16,
        quad_indices(n)[6 * q + 4] == ((4 * q + 2) % 65536) as u16,
        quad_indices(n)[6 * q + 5] == ((4 * q + 3) % 65536) as u16,
    decreases n,
{
    lemma_quad_indices_len(n);
    if q < n - 1 {
        lemma_quad_indices((n - 1) as nat, q);
    }
}

proof fn lemma_quad_indices_len(n: nat)
    ensures
        quad_indices(n).len() == 6 * n,
    decreases n,
{
    if n > 0 {
        lemma_quad_indices_len((n - 1) as nat);
    }
}

/// Meshing is deterministic: two meshes of the same section, view, block
/// table and catalog hold the same vertices and the same indices.
pub proof fn lemma_mesh_deterministic(
    view: ChunkLocal,
    blocks: BlockTable,
    assets: LoadedAssets,
    pos: SectionPos,
    r1: MeshUpdate,
    r2: MeshUpdate,
)
    requires
        r1.pos == pos && r2.pos == pos,
        r1.vertices@ == spec_mesh(view, blocks, assets, pos),
        r2.vertices@ == spec_mesh(view, blocks, assets, pos),
        quads_indexed(r1.vertices@, r1.indices@),
        quads_indexed(r2.vertices@, r2.indices@),
    ensures
        r1.vertices@ == r2.vertices@,
        r1.indices@ == r2.indices@,
{
}

/// The four vertices of a face of an element that has extent along every
/// axis are pairwise distinct.
pub proof fn lemma_face_vertices_distinct(
    view: ChunkLocal,
    blocks: BlockTable,
    p: BlockPos,
    l: BlockPos,
    cube: Cube,
    d: Direction,
    f: FaceDesc,
    ao_on: bool,
    texture: u32,
    a: int,
    b: int,
)
    requires
        cube_wf(cube),
        cube.from.x < cube.to.x && cube.from.y < cube.to.y && cube.from.z < cube.to.z,
        0 <= l.x < 16 && 0 <= l.y < 16 && 0 <= l.z < 16,
        0 <= a < 4 && 0 <= b < 4 && a != b,
    ensures
        spec_vertex(view, blocks, p, l, cube, d, f, a, ao_on, texture) != spec_vertex(
            view,
            blocks,
            p,
            l,
            cube,
            d,
            f,
            b,
            ao_on,
            texture,
        ),
{
    let oa = spec_corner(d, a);
    let ob = spec_corner(d, b);
    assert(oa.x != ob.x || oa.y != ob.y || oa.z != ob.z);
}

proof fn lemma_batch_offset(q: int, o: int)
    requires
        0 <= q,
        0 <= o < 4,
    ensures
        65536 * (q / QUADS_PER_BATCH as int) + (4 * q + o) % 65536 == 4 * q + o,
        (4 * q + o) % 65536 < 65536,
{
    let k = q / 16384;
    let r = q % 16384;
    assert(q == 16384 * k + r && 0 <= r < 16384) by (nonlinear_arith)
        requires
            k == q / 16384,
            r == q % 16384,
            q >= 0,
    ;
    assert(4 * q + o == 65536 * k + (4 * r + o)) by (nonlinear_arith)
        requires
            q == 16384 * k + r,
    ;
    assert((4 * q + o) % 65536 == 4 * r + o) by (nonlinear_arith)
        requires
            4 * q + o == 65536 * k + (4 * r + o),
            0 <= 4 * r + o < 65536,
            k >= 0,
    ;
}

/// Every index, added to its batch's base vertex 65536 * (q / 16384),
/// points at a vertex of its own quad q: 4q, 4q+1, 4q+2, 4q, 4q+2, 4q+3.
/// No index refers to another quad's vertices.
pub proof fn lemma_batch_indices_address_own_quad(n: nat, q: int)
    requires
        0 <= q < n,
    ensures
        quad_indices(n).len() == 6 * n,
        65536 * (q / QUADS_PER_BATCH as int) + quad_indices(n)[6 * q] as int == 4 * q,
        65536 * (q / QUADS_PER_BATCH as int) + quad_indices(n)[6 * q + 1] as int == 4 * q + 1,
        65536 * (q / QUADS_PER_BATCH as int) + quad_indices(n)[6 * q + 2] as int == 4 * q + 2,
        65536 * (q / QUADS_PER_BATCH as int) + quad_indices(n)[6 * q + 3] as int == 4 * q,
        65536 * (q / QUADS_PER_BATCH as int) + quad_indices(n)[6 * q + 4] as int == 4 * q + 2,
        65536 * (q / QUADS_PER_BATCH as int) + quad_indices(n)[6 * q + 5] as int == 4 * q + 3,
{
    lemma_quad_indices(n, q);
    lemma_batch_offset(q, 0);
    lemma_batch_offset(q, 1);
    lemma_batch_offset(q, 2);
    lemma_batch_offset(q, 3);
}

proof fn lemma_cube_len4(
    view: ChunkLocal,
    blocks: BlockTable,
    assets: LoadedAssets,
    chain: Seq<usize>,
    info: BlockInfo,
    p: BlockPos,
    l: BlockPos,
    cube: Cube,
    k: int,
)
    ensures
        cube_vertices(view, blocks, assets, chain, info, p, l, cube, k).len() % 4 == 0,
    decreases k,
{
    if k > 0 {
        lemma_cube_len4(view, blocks, assets, chain, info, p, l, cube, k - 1);
    }
}

proof fn lemma_elements_len4(
    view: ChunkLocal,
    blocks: BlockTable,
    assets: LoadedAssets,
    chain: Seq<usize>,
    info: BlockInfo,
    p: BlockPos,
    l: BlockPos,
    es: Seq<Cube>,
    n: int,
)
    ensures
        elements_vertices(view, blocks, assets, chain, info, p, l, es, n).len() % 4 == 0,
    decreases n,
{
    if n > 0 {
        lemma_elements_len4(view, blocks, assets, chain, info, p, l, es, n - 1);
        lemma_cube_len4(view, blocks, assets, chain, info, p, l, es[n - 1], FACE_COUNT as int);
    }
}

proof fn lemma_block_len4(view: ChunkLocal, blocks: BlockTable, assets: LoadedAssets, p: BlockPos, l: BlockPos)
    ensures
        block_vertices(view, blocks, assets, p, l).len() % 4 == 0,
{
    if let Some((info, chain)) = resolve_block(view, blocks, assets, p) {
        if let Some(es) = chain_elements(assets.block_models@, chain, 0) {
            lemma_elements_len4(view, blocks, assets, chain, info, p, l, es@, es@.len() as int);
        }
    }
}

proof fn lemma_section_len4(view: ChunkLocal, blocks: BlockTable, assets: LoadedAssets, sy: i32, n: int)
    ensures
        section_vertices(view, blocks, assets, sy, n).len() % 4 == 0,
    decreases n,
{
    if n > 0 {
        lemma_section_len4(view, blocks, assets, sy, n - 1);
        lemma_block_len4(view, blocks, assets, block_of(sy, n - 1), cell_of(n - 1));
        let prev = section_vertices(view, blocks, assets, sy, n - 1);
        let bv = block_vertices(view, blocks, assets, block_of(sy, n - 1), cell_of(n - 1));
        assert(section_vertices(view, blocks, assets, sy, n) == prev + bv);
        let a = prev.len() as int;
        let b = bv.len() as int;
        assert((a + b) % 4 == 0) by (nonlinear_arith)
            requires
                a % 4 == 0,
                b % 4 == 0,
        ;
    }
}

proof fn lemma_section_prefix(view: ChunkLocal, blocks: BlockTable, assets: LoadedAssets, sy: i32, n: int, m: int)
    requires
        0 <= n <= m,
    ensures
        section_vertices(view, blocks, assets, sy, n).len() <= section_vertices(view, blocks, assets, sy, m).len(),
        section_vertices(view, blocks, assets, sy, m).subrange(
            0,
            section_vertices(view, blocks, assets, sy, n).len() as int,
        ) == section_vertices(view, blocks, assets, sy, n),
    decreases m,
{
    let svn = section_vertices(view, blocks, assets, sy, n);
    if m == n {
        assert(svn.subrange(0, svn.len() as int) =~= svn);
    } else {
        lemma_section_prefix(view, blocks, assets, sy, n, m - 1);
        let prev = section_vertices(view, blocks, assets, sy, m - 1);
        let bv = block_vertices(view, blocks, assets, block_of(sy, m - 1), cell_of(m - 1));
        let svm = section_vertices(view, blocks, assets, sy, m);
        assert(svm == prev + bv);
        assert(svm.subrange(0, svn.len() as int) =~= prev.subrange(0, svn.len() as int));
    }
}

/// Where cell `i` of a section begins in the vertex list: after the vertices
/// of the cells before it.
pub open spec fn cell_start(view: ChunkLocal, blocks: BlockTable, assets: LoadedAssets, sy: i32, i: int) -> int {
    section_vertices(view, blocks, assets, sy, i).len() as int
}

/// The mesh holds the vertices of each cell, one after the other: those of
/// cell `i` are exactly its block's vertices, they start on a quad boundary,
/// and the quads they form are the quads `cell_start / 4 ..` of the mesh.
pub proof fn lemma_cell_vertices_in_mesh(
    view: ChunkLocal,
    blocks: BlockTable,
    assets: LoadedAssets,
    pos: SectionPos,
    i: int,
)
    requires
        0 <= i < SECTION_BLOCKS,
    ensures
        cell_start(view, blocks, assets, pos.y, i) % 4 == 0,
        cell_start(view, blocks, assets, pos.y, i + 1) == cell_start(view, blocks, assets, pos.y, i)
            + block_vertices(view, blocks, assets, block_of(pos.y, i), cell_of(i)).len(),
        cell_start(view, blocks, assets, pos.y, i + 1) <= spec_mesh(view, blocks, assets, pos).len(),
        spec_mesh(view, blocks, assets, pos).subrange(
            cell_start(view, blocks, assets, pos.y, i),
            cell_start(view, blocks, assets, pos.y, i + 1),
        ) == block_vertices(view, blocks, assets, block_of(pos.y, i), cell_of(i)),
{
    lemma_section_len4(view, blocks, assets, pos.y, i);
    lemma_section_prefix(view, blocks, assets, pos.y, i + 1, SECTION_BLOCKS as int);
    let a = cell_start(view, blocks, assets, pos.y, i);
    let b = cell_start(view, blocks, assets, pos.y, i + 1);
    let whole = spec_mesh(view, blocks, assets, pos);
    let upto = section_vertices(view, blocks, assets, pos.y, i + 1);
    assert(whole.subrange(a, b) =~= upto.subrange(a, b));
    assert(upto.subrange(a, b) =~= block_vertices(view, blocks, assets, block_of(pos.y, i), cell_of(i)));
}

/// A block whose faces all name a cull direction, and whose six neighbours
/// are opaque and cover its sides, adds no vertex to the section's mesh,
/// hence no quad and no index.
pub proof fn lemma_enclosed_block_emits_nothing(
    view: ChunkLocal,
    blocks: BlockTable,
    assets: LoadedAssets,
    pos: SectionPos,
    i: int,
    info: BlockInfo,
    chain: Seq<usize>,
    es: Vec<Cube>,
)
    requires
        0 <= i < SECTION_BLOCKS,
        resolve_block(view, blocks, assets, block_of(pos.y, i)) == Some((info, chain)),
        chain_elements(assets.block_models@, chain, 0) == Some(es),
        all_faces_cullable(es@),
        forall|d: Direction| #[trigger] neighbor_hides(view, blocks, block_of(pos.y, i), info.shape@, d),
    ensures
        block_vertices(view, blocks, assets, block_of(pos.y, i), cell_of(i)) == Seq::<Vertex>::empty(),
        cell_start(view, blocks, assets, pos.y, i + 1) == cell_start(view, blocks, assets, pos.y, i),
{
    lemma_enclosed_block(view, blocks, assets, block_of(pos.y, i), cell_of(i), info, chain, es);
    lemma_cell_vertices_in_mesh(view, blocks, assets, pos, i);
}

/// A block with open cells (air, or nothing loaded) on all six sides adds
/// one quad, four fresh vertices, to the section's mesh for every face that
/// its elements declare; they start on a quad boundary, so each quad's six
/// indices refer to its own four vertices.
pub proof fn lemma_open_block_emits_every_face(
    view: ChunkLocal,
    blocks: BlockTable,
    assets: LoadedAssets,
    pos: SectionPos,
    i: int,
    info: BlockInfo,
    chain: Seq<usize>,
    es: Vec<Cube>,
)
    requires
        0 <= i < SECTION_BLOCKS,
        resolve_block(view, blocks, assets, block_of(pos.y, i)) == Some((info, chain)),
        chain_elements(assets.block_models@, chain, 0) == Some(es),
        forall|d: Direction| #[trigger] open_neighbor(view, blocks, block_of(pos.y, i), d),
    ensures
        cell_start(view, blocks, assets, pos.y, i) % 4 == 0,
        cell_start(view, blocks, assets, pos.y, i + 1) - cell_start(view, blocks, assets, pos.y, i)
            == 4 * elements_face_count(es@, es@.len() as int),
        spec_mesh(view, blocks, assets, pos).subrange(
            cell_start(view, blocks, assets, pos.y, i),
            cell_start(view, blocks, assets, pos.y, i + 1),
        ) == block_vertices(view, blocks, assets, block_of(pos.y, i), cell_of(i)),
{
    lemma_open_block(view, blocks, assets, block_of(pos.y, i), cell_of(i), info, chain, es);
    lemma_cell_vertices_in_mesh(view, blocks, assets, pos, i);
}

/// A block whose table entry with the empty predicate is reached before any
/// other entry holds is drawn with that entry's model, whatever its
/// properties and whatever entries follow.
pub proof fn lemma_empty_predicate_selects_model(
    view: ChunkLocal,
    blocks: BlockTable,
    assets: LoadedAssets,
    p: BlockPos,
    info: BlockInfo,
    es: Vec<(String, Variant)>,
    k: int,
    vd: VariantDesc,
)
    requires
        spec_block_info(blocks, spec_get_block(view, p)) == Some(info),
        !info.is_air,
        assets.spec_block_state(info.name@) == Some(BlockRenderState::Variants(Variants::Keyed(es))),
        0 <= k < es@.len(),
        es@[k].0@ == Seq::<char>::empty(),
        forall|j: int| 0 <= j < k ==> !predicate_holds(#[trigger] es@[j].0@, info.properties@),
        first_desc(es@[k].1) == Some(vd),
    ensures
        resolve_block(view, blocks, assets, p) == match assets.spec_model_chain(vd.model@) {
            Some(c) => Some((info, c)),
            None => None,
        },
{
    crate::block_state::lemma_empty_predicate_wins(es, info.properties@, k);
}

proof fn lemma_empty_cell_draws_nothing(view: ChunkLocal, blocks: BlockTable, assets: LoadedAssets, p: BlockPos, l: BlockPos)
    requires
        empty_cell(view, blocks, p),
    ensures
        block_vertices(view, blocks, assets, p, l) == Seq::<Vertex>::empty(),
{
}

/// The length of the first `n` cells' vertices when only cells `i1` and
/// `i2` (possibly the same) can draw anything.
proof fn lemma_section_len(
    view: ChunkLocal,
    blocks: BlockTable,
    assets: LoadedAssets,
    sy: i32,
    i1: int,
    i2: int,
    n: int,
)
    requires
        0 <= n <= SECTION_BLOCKS,
        forall|i: int|
            0 <= i < SECTION_BLOCKS && i != i1 && i != i2 ==> #[trigger] empty_cell(view, blocks, block_of(sy, i)),
    ensures
        section_vertices(view, blocks, assets, sy, n).len() == (if 0 <= i1 < n {
            block_vertices(view, blocks, assets, block_of(sy, i1), cell_of(i1)).len()
        } else {
            0
        }) + (if 0 <= i2 < n && i2 != i1 {
            block_vertices(view, blocks, assets, block_of(sy, i2), cell_of(i2)).len()
        } else {
            0
        }),
    decreases n,
{
    if n > 0 {
        lemma_section_len(view, blocks, assets, sy, i1, i2, n - 1);
        let i = n - 1;
        if i != i1 && i != i2 {
            assert(empty_cell(view, blocks, block_of(sy, i)));
            lemma_empty_cell_draws_nothing(view, blocks, assets, block_of(sy, i), cell_of(i));
        }
    }
}

/// A section whose only non-empty cell holds a block with open cells on
/// all six sides has four vertices per face its elements declare; for one
/// element with all six faces, 24 vertices and 36 indices.
pub proof fn lemma_single_block_section(
    view: ChunkLocal,
    blocks: BlockTable,
    assets: LoadedAssets,
    pos: SectionPos,
    i0: int,
    info: BlockInfo,
    chain: Seq<usize>,
    es: Vec<Cube>,
)
    requires
        0 <= i0 < SECTION_BLOCKS,
        forall|i: int|
            0 <= i < SECTION_BLOCKS && i != i0 ==> #[trigger] empty_cell(view, blocks, block_of(pos.y, i)),
        resolve_block(view, blocks, assets, block_of(pos.y, i0)) == Some((info, chain)),
        chain_elements(assets.block_models@, chain, 0) == Some(es),
        forall|d: Direction| #[trigger] open_neighbor(view, blocks, block_of(pos.y, i0), d),
    ensures
        spec_mesh(view, blocks, assets, pos).len() == 4 * elements_face_count(es@, es@.len() as int),
        es@.len() == 1 && (forall|d: Direction| #[trigger] spec_face(es@[0], d) is Some) ==> spec_mesh(
            view,
            blocks,
            assets,
            pos,
        ).len() == 24 && quad_indices(6).len() == 36,
{
    lemma_section_len(view, blocks, assets, pos.y, i0, i0, SECTION_BLOCKS as int);
    lemma_open_block(view, blocks, assets, block_of(pos.y, i0), cell_of(i0), info, chain, es);
    lemma_quad_indices_len(6);
    if es@.len() == 1 && (forall|d: Direction| #[trigger] spec_face(es@[0], d) is Some) {
        let c = es@[0];
        assert(spec_face(c, Direction::Up) is Some);
        assert(spec_face(c, Direction::Down) is Some);
        assert(spec_face(c, Direction::North) is Some);
        assert(spec_face(c, Direction::South) is Some);
        assert(spec_face(c, Direction::East) is Some);
        assert(spec_face(c, Direction::West) is Some);
        reveal_with_fuel(crate::mesh_laws::cube_face_count, 7);
        assert(cube_face_count(c, 6) == 6);
        assert(elements_face_count(es@, 1) == elements_face_count(es@, 0) + cube_face_count(c, 6));
    }
}

/// Whether every face of the element is declared, each culled by the
/// neighbour it faces.
pub open spec fn culls_own_faces(c: Cube) -> bool {
    forall|d: Direction|
        #[trigger] spec_face(c, d) is Some && spec_face(c, d)->Some_0.cullface == Some(d)
}

/// Whether a collision shape fills its whole cell.
pub open spec fn full_cube_shape(s: Seq<crate::chunk::Aabb>) -> bool {
    s.len() > 0 && box_full(s[0])
}

proof fn lemma_full_shape_hides(own: Seq<crate::chunk::Aabb>, d: Direction, other: Seq<crate::chunk::Aabb>)
    requires
        full_cube_shape(other),
    ensures
        crate::occlusion::face_hidden_by(own, d, other),
{
    assert forall|u: int, v: int|
        0 <= u < 16 && 0 <= v < 16 && #[trigger] crate::occlusion::shape_covers(own, d, u, v) implies crate::occlusion::shape_covers(
        other,
        spec_opposite(d),
        u,
        v,
    ) by {
        assert(crate::occlusion::box_covers(other[0], spec_opposite(d), u, v));
    }
}

proof fn lemma_face_len_one_hidden(
    view: ChunkLocal,
    blocks: BlockTable,
    assets: LoadedAssets,
    chain: Seq<usize>,
    info: BlockInfo,
    p: BlockPos,
    l: BlockPos,
    cube: Cube,
    k: int,
    dh: Direction,
)
    requires
        0 <= k < FACE_COUNT,
        culls_own_faces(cube),
        neighbor_hides(view, blocks, p, info.shape@, dh),
        forall|d: Direction| d != dh ==> #[trigger] open_neighbor(view, blocks, p, d),
    ensures
        face_vertices(view, blocks, assets, chain, info, p, l, cube, k).len() == if spec_mesh_direction(k)
            == dh {
            0int
        } else {
            4int
        },
{
    let d = spec_mesh_direction(k);
    assert(spec_face(cube, d) is Some && spec_face(cube, d)->Some_0.cullface == Some(d));
    if d != dh {
        assert(open_neighbor(view, blocks, p, d));
    }
}

proof fn lemma_block_len_one_hidden(
    view: ChunkLocal,
    blocks: BlockTable,
    assets: LoadedAssets,
    p: BlockPos,
    l: BlockPos,
    info: BlockInfo,
    chain: Seq<usize>,
    es: Vec<Cube>,
    dh: Direction,
)
    requires
        resolve_block(view, blocks, assets, p) == Some((info, chain)),
        chain_elements(assets.block_models@, chain, 0) == Some(es),
        es@.len() == 1,
        culls_own_faces(es@[0]),
        neighbor_hides(view, blocks, p, info.shape@, dh),
        forall|d: Direction| d != dh ==> #[trigger] open_neighbor(view, blocks, p, d),
    ensures
        forall|k: int|
            0 <= k < FACE_COUNT ==> (#[trigger] face_vertices(view, blocks, assets, chain, info, p, l, es@[0], k)).len()
                == if spec_mesh_direction(k) == dh {
                0int
            } else {
                4int
            },
        block_vertices(view, blocks, assets, p, l).len() == 20,
{
    let c = es@[0];
    assert forall|k: int| 0 <= k < FACE_COUNT implies (#[trigger] face_vertices(view, blocks, assets, chain, info, p, l, c, k)).len()
        == if spec_mesh_direction(k) == dh {
        0int
    } else {
        4int
    } by {
        lemma_face_len_one_hidden(view, blocks, assets, chain, info, p, l, c, k, dh);
    }
    let f0 = face_vertices(view, blocks, assets, chain, info, p, l, c, 0);
    let f1 = face_vertices(view, blocks, assets, chain, info, p, l, c, 1);
    let f2 = face_vertices(view, blocks, assets, chain, info, p, l, c, 2);
    let f3 = face_vertices(view, blocks, assets, chain, info, p, l, c, 3);
    let f4 = face_vertices(view, blocks, assets, chain, info, p, l, c, 4);
    let f5 = face_vertices(view, blocks, assets, chain, info, p, l, c, 5);
    assert(cube_vertices(view, blocks, assets, chain, info, p, l, c, 0).len() == 0);
    assert(cube_vertices(view, blocks, assets, chain, info, p, l, c, 1).len() == f0.len());
    assert(cube_vertices(view, blocks, assets, chain, info, p, l, c, 2).len() == f0.len() + f1.len());
    assert(cube_vertices(view, blocks, assets, chain, info, p, l, c, 3).len() == f0.len() + f1.len() + f2.len());
    assert(cube_vertices(view, blocks, assets, chain, info, p, l, c, 4).len() == f0.len() + f1.len() + f2.len()
        + f3.len());
    assert(cube_vertices(view, blocks, assets, chain, info, p, l, c, 5).len() == f0.len() + f1.len() + f2.len()
        + f3.len() + f4.len());
    assert(cube_vertices(view, blocks, assets, chain, info, p, l, c, 6).len() == f0.len() + f1.len() + f2.len()
        + f3.len() + f4.len() + f5.len());
    assert(elements_vertices(view, blocks, assets, chain, info, p, l, es@, 0) == Seq::<Vertex>::empty());
    assert(elements_vertices(view, blocks, assets, chain, info, p, l, es@, 1) == elements_vertices(
        view,
        blocks,
        assets,
        chain,
        info,
        p,
        l,
        es@,
        0,
    ) + cube_vertices(view, blocks, assets, chain, info, p, l, c, 6));
}

/// Two adjacent opaque full cubes, each face culled by the neighbour it
/// faces, with nothing else drawn around them: each hides exactly its face
/// towards the other and shows its other five, so the section's mesh holds
/// ten quads, 40 vertices and 60 indices, not twelve quads.
pub proof fn lemma_adjacent_cubes_hide_shared_faces(
    view: ChunkLocal,
    blocks: BlockTable,
    assets: LoadedAssets,
    pos: SectionPos,
    i1: int,
    i2: int,
    d: Direction,
    info1: BlockInfo,
    chain1: Seq<usize>,
    es1: Vec<Cube>,
    info2: BlockInfo,
    chain2: Seq<usize>,
    es2: Vec<Cube>,
)
    requires
        0 <= i1 < SECTION_BLOCKS,
        0 <= i2 < SECTION_BLOCKS,
        i1 != i2,
        block_of(pos.y, i2) == pos_add(block_of(pos.y, i1), spec_normal(d)),
        block_of(pos.y, i1) == pos_add(block_of(pos.y, i2), spec_normal(spec_opposite(d))),
        forall|i: int|
            0 <= i < SECTION_BLOCKS && i != i1 && i != i2 ==> #[trigger] empty_cell(view, blocks, block_of(pos.y, i)),
        resolve_block(view, blocks, assets, block_of(pos.y, i1)) == Some((info1, chain1)),
        chain_elements(assets.block_models@, chain1, 0) == Some(es1),
        es1@.len() == 1,
        culls_own_faces(es1@[0]),
        info1.opaque && full_cube_shape(info1.shape@),
        resolve_block(view, blocks, assets, block_of(pos.y, i2)) == Some((info2, chain2)),
        chain_elements(assets.block_models@, chain2, 0) == Some(es2),
        es2@.len() == 1,
        culls_own_faces(es2@[0]),
        info2.opaque && full_cube_shape(info2.shape@),
        forall|e: Direction| e != d ==> #[trigger] open_neighbor(view, blocks, block_of(pos.y, i1), e),
        forall|e: Direction| e != spec_opposite(d) ==> #[trigger] open_neighbor(view, blocks, block_of(pos.y, i2), e),
    ensures
        forall|k: int|
            0 <= k < FACE_COUNT ==> (#[trigger] face_vertices(
                view,
                blocks,
                assets,
                chain1,
                info1,
                block_of(pos.y, i1),
                cell_of(i1),
                es1@[0],
                k,
            )).len() == if spec_mesh_direction(k) == d {
                0int
            } else {
                4int
            },
        forall|k: int|
            0 <= k < FACE_COUNT ==> (#[trigger] face_vertices(
                view,
                blocks,
                assets,
                chain2,
                info2,
                block_of(pos.y, i2),
                cell_of(i2),
                es2@[0],
                k,
            )).len() == if spec_mesh_direction(k) == spec_opposite(d) {
                0int
            } else {
                4int
            },
        spec_mesh(view, blocks, assets, pos).len() == 40,
        quad_indices(10).len() == 60,
{
    let p1 = block_of(pos.y, i1);
    let p2 = block_of(pos.y, i2);
    lemma_full_shape_hides(info1.shape@, d, info2.shape@);
    lemma_full_shape_hides(info2.shape@, spec_opposite(d), info1.shape@);
    assert(neighbor_hides(view, blocks, p1, info1.shape@, d));
    assert(neighbor_hides(view, blocks, p2, info2.shape@, spec_opposite(d)));
    lemma_block_len_one_hidden(view, blocks, assets, p1, cell_of(i1), info1, chain1, es1, d);
    lemma_block_len_one_hidden(view, blocks, assets, p2, cell_of(i2), info2, chain2, es2, spec_opposite(d));
    lemma_section_len(view, blocks, assets, pos.y, i1, i2, SECTION_BLOCKS as int);
    lemma_quad_indices_len(10);
}

} // verus!
