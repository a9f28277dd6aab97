use vstd::prelude::*;
use vstd::arithmetic::div_mod::lemma_add_mod_noop;
use crate::assets::{
    chain_elements, cube_wf, model_wf, spec_face, texture_walk, BlockModelRef, Cube, FaceDesc,
    LoadedAssets, MAX_TEXTURE_HOPS,
};
use crate::block_state::{select_variant, spec_select_variant};
use crate::chunk::{spec_block_info, spec_get_block, BlockInfo, BlockTable, ChunkLocal};
use crate::geom::{
    face_corner, generate_uv, mesh_direction, spec_corner, spec_mesh_direction, spec_normal,
    spec_uv, BlockPos, Direction, FACE_COUNT,
};
use crate::occlusion::{compute_ao, cull, pos_in_range, spec_compute_ao, spec_cull};

verus! {

/// One vertex of a chunk mesh. The position is in 1/256 of a block (the
/// unit of element coordinates) from the section's lowest corner, the
/// texture coordinate in sixteenths of a texel; `ao` is the ambient-occlusion level (0 darkest, 3
/// unshaded) and `texture` the texture's index.
#[derive(Clone, Copy, Debug, PartialEq, Eq, Structural)]
pub struct Vertex {
    pub x: i32,
    pub y: i32,
    pub z: i32,
    pub u: i32,
    pub v: i32,
    pub ao: u32,
    pub texture: u32,
}

/// A section's coordinate: chunk x, section y, chunk z.
#[derive(Clone, Copy, Debug, PartialEq, Eq, Structural)]
pub struct SectionPos {
    pub x: i32,
    pub y: i32,
    pub z: i32,
}

/// The mesh of one section: four vertices per quad and, per quad, six
/// 16-bit indices forming two counter-clockwise triangles.
///
/// A 16-bit index reaches 65536 vertices, so the quads come in batches of
/// `QUADS_PER_BATCH`: the indices of batch k count from its first vertex,
/// 65536 * k, and the batch is drawn with that base vertex. A section with
/// fewer quads is a single batch whose indices are absolute.
#[derive(Debug)]
pub struct MeshUpdate {
    pub pos: SectionPos,
    pub vertices: Vec<Vertex>,
    pub indices: Vec<u16>,
}

/// Bound on a section's y coordinate, so that block heights around it fit.
pub const SECTION_Y_LIMIT: i32 = 0x100_0000;

/// The level used for every vertex of a model without ambient occlusion.
pub const NO_AO: u32 = 3;

/// Quads per index batch: 65536 vertices, the reach of a 16-bit index.
pub const QUADS_PER_BATCH: usize = 16384;

/// Number of cells of a section that the mesher visits.
pub const SECTION_BLOCKS: usize = 4096;

/// The indices of the quads 0..n: quad q refers to its vertices 4q..4q+4
/// in the order 0, 1, 2, 0, 2, 3, numbered from the first vertex of the
/// quad's batch (that is, modulo 2^16).
pub open spec fn quad_indices(n: nat) -> Seq<u16>
    decreases n,
{
    if n == 0 {
        Seq::empty()
    } else {
        let b = 4 * (n - 1);
        quad_indices((n - 1) as nat) + seq![
            (b % 65536) as u16,
            ((b + 1) % 65536) as u16,
            ((b + 2) % 65536) as u16,
            (b % 65536) as u16,
            ((b + 2) % 65536) as u16,
            ((b + 3) % 65536) as u16,
        ]
    }
}

/// The coordinate of a face corner along one axis: the element's `from`
/// side for a 0 component, its `to` side for a 1.
pub open spec fn corner_coord(o: i32, from: i32, to: i32) -> i32 {
    if o == 0 {
        from
    } else {
        to
    }
}

/// The model and its chain of ancestors chosen for the block at `p`, with
/// the block's state; none for air, for a missing cell or an unknown id, and
/// where the block-state table, the variant or a model is missing.
pub open spec fn resolve_block(
    view: ChunkLocal,
    blocks: BlockTable,
    assets: LoadedAssets,
    p: BlockPos,
) -> Option<(BlockInfo, Seq<usize>)> {
    match spec_block_info(blocks, spec_get_block(view, p)) {
        None => None,
        Some(b) => if b.is_air {
            None
        } else {
            match assets.spec_block_state(b.name@) {
                None => None,
                Some(st) => match spec_select_variant(st, b.properties@) {
                    None => None,
                    Some(vd) => match assets.spec_model_chain(vd.model@) {
                        None => None,
                        Some(chain) => Some((b, chain)),
                    },
                },
            }
        }
    }
}

/// The texture index of a face: its reference resolved through the model
/// chain, then looked up; 0 when either step fails.
pub open spec fn face_texture(assets: LoadedAssets, chain: Seq<usize>, f: FaceDesc) -> u32 {
    match texture_walk(assets.block_models@, chain, 0, f.texture@, MAX_TEXTURE_HOPS as nat) {
        Some(path) => match assets.textures.spec_id(path) {
            Some(t) => t,
            None => 0,
        },
        None => 0,
    }
}

/// Vertex `c` of the face `f` (direction `d`) of element `cube` of the block
/// at `p`, whose cell is `l` within the section.
pub open spec fn spec_vertex(
    view: ChunkLocal,
    blocks: BlockTable,
    p: BlockPos,
    l: BlockPos,
    cube: Cube,
    d: Direction,
    f: FaceDesc,
    c: int,
    ao_on: bool,
    texture: u32,
) -> Vertex {
    let o = spec_corner(d, c);
    let uv = spec_uv(d, f.uv, c);
    Vertex {
        x: (256 * l.x + corner_coord(o.x, cube.from.x, cube.to.x)) as i32,
        y: (256 * l.y + corner_coord(o.y, cube.from.y, cube.to.y)) as i32,
        z: (256 * l.z + corner_coord(o.z, cube.from.z, cube.to.z)) as i32,
        u: uv.0,
        v: uv.1,
        ao: if ao_on {
            spec_compute_ao(view, blocks, p, o, spec_normal(d))
        } else {
            NO_AO
        },
        texture,
    }
}

/// The vertices emitted for face number `k` (in mesh order) of `cube`: none
/// when the element has no such face or the face is culled, else one quad.
pub open spec fn face_vertices(
    view: ChunkLocal,
    blocks: BlockTable,
    assets: LoadedAssets,
    chain: Seq<usize>,
    info: BlockInfo,
    p: BlockPos,
    l: BlockPos,
    cube: Cube,
    k: int,
) -> Seq<Vertex> {
    let d = spec_mesh_direction(k);
    let ao_on = assets.block_models@[chain[0] as int].1.ambient_occlusion;
    match spec_face(cube, d) {
        None => Seq::empty(),
        Some(f) => if spec_cull(f, p, info.shape@, view, blocks) {
            Seq::empty()
        } else {
            let t = face_texture(assets, chain, f);
            seq![
                spec_vertex(view, blocks, p, l, cube, d, f, 0, ao_on, t),
                spec_vertex(view, blocks, p, l, cube, d, f, 1, ao_on, t),
                spec_vertex(view, blocks, p, l, cube, d, f, 2, ao_on, t),
                spec_vertex(view, blocks, p, l, cube, d, f, 3, ao_on, t),
            ]
        }
    }
}

/// The vertices of the first `k` faces of `cube`, in mesh order.
pub open spec fn cube_vertices(
    view: ChunkLocal,
    blocks: BlockTable,
    assets: LoadedAssets,
    chain: Seq<usize>,
    info: BlockInfo,
    p: BlockPos,
    l: BlockPos,
    cube: Cube,
    k: int,
) -> Seq<Vertex>
    decreases k,
{
    if k <= 0 {
        Seq::empty()
    } else {
        cube_vertices(view, blocks, assets, chain, info, p, l, cube, k - 1) + face_vertices(
            view,
            blocks,
            assets,
            chain,
            info,
            p,
            l,
            cube,
            k - 1,
        )
    }
}

/// The vertices of the first `n` elements.
pub open spec fn elements_vertices(
    view: ChunkLocal,
    blocks: BlockTable,
    assets: LoadedAssets,
    chain: Seq<usize>,
    info: BlockInfo,
    p: BlockPos,
    l: BlockPos,
    es: Seq<Cube>,
    n: int,
) -> Seq<Vertex>
    decreases n,
{
    if n <= 0 {
        Seq::empty()
    } else {
        elements_vertices(view, blocks, assets, chain, info, p, l, es, n - 1) + cube_vertices(
            view,
            blocks,
            assets,
            chain,
            info,
            p,
            l,
            es[n - 1],
            FACE_COUNT as int,
        )
    }
}

/// The vertices of the block at `p` (cell `l` of the section).
pub open spec fn block_vertices(
    view: ChunkLocal,
    blocks: BlockTable,
    assets: LoadedAssets,
    p: BlockPos,
    l: BlockPos,
) -> Seq<Vertex> {
    match resolve_block(view, blocks, assets, p) {
        None => Seq::empty(),
        Some((info, chain)) => match chain_elements(assets.block_models@, chain, 0) {
            None => Seq::empty(),
            Some(es) => elements_vertices(view, blocks, assets, chain, info, p, l, es@, es@.len() as int),
        },
    }
}

/// Cell `i` of a section, visited by y, then x, then z.
pub open spec fn cell_of(i: int) -> BlockPos {
    BlockPos { x: ((i / 16) % 16) as i32, y: (i / 256) as i32, z: (i % 16) as i32 }
}

/// The world position (x and z within the chunk) of cell `i` of section `sy`.
pub open spec fn block_of(sy: i32, i: int) -> BlockPos {
    let l = cell_of(i);
    BlockPos { x: l.x, y: (16 * sy + l.y) as i32, z: l.z }
}

/// The vertices of the first `n` cells of the section.
pub open spec fn section_vertices(
    view: ChunkLocal,
    blocks: BlockTable,
    assets: LoadedAssets,
    sy: i32,
    n: int,
) -> Seq<Vertex>
    decreases n,
{
    if n <= 0 {
        Seq::empty()
    } else {
        section_vertices(view, blocks, assets, sy, n - 1) + block_vertices(
            view,
            blocks,
            assets,
            block_of(sy, n - 1),
            cell_of(n - 1),
        )
    }
}

/// The mesh of the section at `pos`.
pub open spec fn spec_mesh(
    view: ChunkLocal,
    blocks: BlockTable,
    assets: LoadedAssets,
    pos: SectionPos,
) -> Seq<Vertex> {
    section_vertices(view, blocks, assets, pos.y, SECTION_BLOCKS as int)
}

/// Whether the vertex and index lists hold whole quads, indexed in order.
pub open spec fn quads_indexed(vertices: Seq<Vertex>, indices: Seq<u16>) -> bool {
    vertices.len() % 4 == 0 && indices == quad_indices((vertices.len() / 4) as nat)
}

/// Appends one quad and its six indices.
fn push_quad(
    vertices: &mut Vec<Vertex>,
    indices: &mut Vec<u16>,
    a: Vertex,
    b: Vertex,
    c: Vertex,
    d: Vertex,
)
    requires
        quads_indexed(old(vertices)@, old(indices)@),
    ensures
        final(vertices)@ == old(vertices)@ + seq![a, b, c, d],
        quads_indexed(final(vertices)@, final(indices)@),
{
    let n = vertices.len();
    let base = n % 65536;
    proof {
        let nq = (n / 4) as nat;
        assert(n == 4 * nq);
        lemma_add_mod_noop(n as int, 0, 65536);
        lemma_add_mod_noop(n as int, 1, 65536);
        lemma_add_mod_noop(n as int, 2, 65536);
        lemma_add_mod_noop(n as int, 3, 65536);
        lemma_add_mod_noop(base as int, 0, 65536);
        lemma_add_mod_noop(base as int, 1, 65536);
        lemma_add_mod_noop(base as int, 2, 65536);
        lemma_add_mod_noop(base as int, 3, 65536);
    }
    indices.push((base % 65536) as u16);
    indices.push(((base + 1) % 65536) as u16);
    indices.push(((base + 2) % 65536) as u16);
    indices.push((base % 65536) as u16);
    indices.push(((base + 2) % 65536) as u16);
    indices.push(((base + 3) % 65536) as u16);
    vertices.push(a);
    vertices.push(b);
    vertices.push(c);
    vertices.push(d);
    proof {
        let nq = (n / 4) as nat;
        assert((vertices@.len() / 4) as nat == nq + 1);
        assert(indices@ =~= quad_indices(nq + 1));
    }
}

fn make_vertex(
    view: &ChunkLocal,
    blocks: &BlockTable,
    p: BlockPos,
    l: BlockPos,
    cube: &Cube,
    d: Direction,
    f: &FaceDesc,
    c: usize,
    ao_on: bool,
    texture: u32,
) -> (r: Vertex)
    requires
        c < 4,
        pos_in_range(p),
        cube_wf(*cube),
        0 <= l.x < 16 && 0 <= l.y < 16 && 0 <= l.z < 16,
    ensures
        r == spec_vertex(*view, *blocks, p, l, *cube, d, *f, c as int, ao_on, texture),
{
    let o = face_corner(d, c);
    let uv = generate_uv(d, f.uv, c);
    let cx = if o.x == 0 { cube.from.x } else { cube.to.x };
    let cy = if o.y == 0 { cube.from.y } else { cube.to.y };
    let cz = if o.z == 0 { cube.from.z } else { cube.to.z };
    let ao = if ao_on {
        compute_ao(p, o, d.normal(), view, blocks)
    } else {
        NO_AO
    };
    Vertex { x: 256 * l.x + cx, y: 256 * l.y + cy, z: 256 * l.z + cz, u: uv.0, v: uv.1, ao, texture }
}

/// The texture index of a face of `model`; 0 when it cannot be resolved.
fn texture_index(assets: &LoadedAssets, model: &BlockModelRef, f: &FaceDesc) -> (r: u32)
    requires
        assets.wf(),
        model.wf(),
        model.assets == assets,
    ensures
        r == face_texture(*assets, model.chain@, *f),
{
    match model.get_texture(f.texture.as_str()) {
        Some(path) => match assets.texture_id(path.as_str()) {
            Some(t) => t,
            None => 0,
        },
        None => 0,
    }
}

/// Emits face number `k` of `cube`, unless it is absent or culled.
fn emit_face(
    view: &ChunkLocal,
    blocks: &BlockTable,
    assets: &LoadedAssets,
    model: &BlockModelRef,
    info: &BlockInfo,
    p: BlockPos,
    l: BlockPos,
    cube: &Cube,
    k: usize,
    vertices: &mut Vec<Vertex>,
    indices: &mut Vec<u16>,
)
    requires
        k < FACE_COUNT,
        assets.wf(),
        model.wf(),
        model.assets == assets,
        model.ambient_occlusion == assets.block_models@[model.chain@[0] as int].1.ambient_occlusion,
        pos_in_range(p),
        cube_wf(*cube),
        0 <= l.x < 16 && 0 <= l.y < 16 && 0 <= l.z < 16,
        quads_indexed(old(vertices)@, old(indices)@),
    ensures
        final(vertices)@ == old(vertices)@ + face_vertices(
            *view,
            *blocks,
            *assets,
            model.chain@,
            *info,
            p,
            l,
            *cube,
            k as int,
        ),
        quads_indexed(final(vertices)@, final(indices)@),
{
    let d = mesh_direction(k);
    match cube.face(d) {
        None => {
            assert(old(vertices)@ =~= old(vertices)@ + Seq::<Vertex>::empty());
        },
        Some(f) => {
            if cull(f, p, &info.shape, view, blocks) {
                assert(old(vertices)@ =~= old(vertices)@ + Seq::<Vertex>::empty());
            } else {
                let t = texture_index(assets, model, f);
                let ao_on = model.ambient_occlusion;
                let a = make_vertex(view, blocks, p, l, cube, d, f, 0, ao_on, t);
                let b = make_vertex(view, blocks, p, l, cube, d, f, 1, ao_on, t);
                let c = make_vertex(view, blocks, p, l, cube, d, f, 2, ao_on, t);
                let e = make_vertex(view, blocks, p, l, cube, d, f, 3, ao_on, t);
                push_quad(vertices, indices, a, b, c, e);
            }
        },
    }
}

/// Emits the visible faces of one element.
fn emit_cube(
    view: &ChunkLocal,
    blocks: &BlockTable,
    assets: &LoadedAssets,
    model: &BlockModelRef,
    info: &BlockInfo,
    p: BlockPos,
    l: BlockPos,
    cube: &Cube,
    vertices: &mut Vec<Vertex>,
    indices: &mut Vec<u16>,
)
    requires
        assets.wf(),
        model.wf(),
        model.assets == assets,
        model.ambient_occlusion == assets.block_models@[model.chain@[0] as int].1.ambient_occlusion,
        pos_in_range(p),
        cube_wf(*cube),
        0 <= l.x < 16 && 0 <= l.y < 16 && 0 <= l.z < 16,
        quads_indexed(old(vertices)@, old(indices)@),
    ensures
        final(vertices)@ == old(vertices)@ + cube_vertices(
            *view,
            *blocks,
            *assets,
            model.chain@,
            *info,
            p,
            l,
            *cube,
            FACE_COUNT as int,
        ),
        quads_indexed(final(vertices)@, final(indices)@),
{
    let ghost start = vertices@;
    let mut k: usize = 0;
    assert(start =~= start + Seq::<Vertex>::empty());
    while k < FACE_COUNT
        invariant
            k <= FACE_COUNT,
            assets.wf(),
            model.wf(),
            model.assets == assets,
            model.ambient_occlusion == assets.block_models@[model.chain@[0] as int].1.ambient_occlusion,
            pos_in_range(p),
            cube_wf(*cube),
            0 <= l.x < 16 && 0 <= l.y < 16 && 0 <= l.z < 16,
            quads_indexed(vertices@, indices@),
            vertices@ == start + cube_vertices(
                *view,
                *blocks,
                *assets,
                model.chain@,
                *info,
                p,
                l,
                *cube,
                k as int,
            ),
        decreases FACE_COUNT - k,
    {
        let ghost before = vertices@;
        emit_face(view, blocks, assets, model, info, p, l, cube, k, vertices, indices);
        proof {
            let fv = face_vertices(*view, *blocks, *assets, model.chain@, *info, p, l, *cube, k as int);
            let cv = cube_vertices(*view, *blocks, *assets, model.chain@, *info, p, l, *cube, k as int);
            assert(vertices@ =~= start + (cv + fv));
        }
        k = k + 1;
    }
}

/// The elements found along a chain of a well-formed catalog lie in block
/// space.
proof fn lemma_chain_elements_wf(assets: LoadedAssets, chain: Seq<usize>, k: int, es: Vec<Cube>)
    requires
        assets.wf(),
        forall|j: int| 0 <= j < chain.len() ==> #[trigger] chain[j] < assets.block_models@.len(),
        0 <= k,
        chain_elements(assets.block_models@, chain, k) == Some(es),
    ensures
        forall|i: int| 0 <= i < es@.len() ==> cube_wf(#[trigger] es@[i]),
    decreases chain.len() - k,
{
    if k < chain.len() {
        let m = assets.block_models@[chain[k] as int].1;
        assert(model_wf(m));
        if m.elements is None {
            lemma_chain_elements_wf(assets, chain, k + 1, es);
        }
    }
}

/// Emits the geometry of the block at `p`, whose cell in the section is `l`.
fn mesh_block(
    view: &ChunkLocal,
    blocks: &BlockTable,
    assets: &LoadedAssets,
    p: BlockPos,
    l: BlockPos,
    vertices: &mut Vec<Vertex>,
    indices: &mut Vec<u16>,
)
    requires
        assets.wf(),
        pos_in_range(p),
        0 <= l.x < 16 && 0 <= l.y < 16 && 0 <= l.z < 16,
        quads_indexed(old(vertices)@, old(indices)@),
    ensures
        final(vertices)@ == old(vertices)@ + block_vertices(*view, *blocks, *assets, p, l),
        quads_indexed(final(vertices)@, final(indices)@),
{
    let ghost start = vertices@;
    proof {
        assert(start =~= start + Seq::<Vertex>::empty());
    }
    let id = match view.get_block(p) {
        Some(id) => id,
        None => {
            return;
        },
    };
    let info = match blocks.get(id) {
        Some(b) => b,
        None => {
            return;
        },
    };
    if info.is_air {
        return;
    }
    let state = match assets.get_block_state(info.name.as_str()) {
        Some(s) => s,
        None => {
            return;
        },
    };
    let variant = match select_variant(state, &info.properties) {
        Some(v) => v,
        None => {
            return;
        },
    };
    let model = match assets.get_block_model(variant.model.as_str()) {
        Some(m) => m,
        None => {
            return;
        },
    };
    let es = match model.elements() {
        Some(es) => es,
        None => {
            return;
        },
    };
    proof {
        lemma_chain_elements_wf(*assets, model.chain@, 0, *es);
    }
    let mut e: usize = 0;
    while e < es.len()
        invariant
            e <= es@.len(),
            assets.wf(),
            model.wf(),
            model.assets == assets,
            model.ambient_occlusion == assets.block_models@[model.chain@[0] as int].1.ambient_occlusion,
            model.spec_elements() == Some(*es),
            resolve_block(*view, *blocks, *assets, p) == Some((*info, model.chain@)),
            forall|i: int| 0 <= i < es@.len() ==> cube_wf(#[trigger] es@[i]),
            pos_in_range(p),
            0 <= l.x < 16 && 0 <= l.y < 16 && 0 <= l.z < 16,
            quads_indexed(vertices@, indices@),
            vertices@ == start + elements_vertices(
                *view,
                *blocks,
                *assets,
                model.chain@,
                *info,
                p,
                l,
                es@,
                e as int,
            ),
        decreases es@.len() - e,
    {
        emit_cube(view, blocks, assets, &model, info, p, l, &es[e], vertices, indices);
        proof {
            let prev = elements_vertices(*view, *blocks, *assets, model.chain@, *info, p, l, es@, e as int);
            let cv = cube_vertices(
                *view,
                *blocks,
                *assets,
                model.chain@,
                *info,
                p,
                l,
                es@[e as int],
                FACE_COUNT as int,
            );
            assert(vertices@ =~= start + (prev + cv));
        }
        e = e + 1;
    }
}

/// Builds the mesh of the section at `pos` of the chunk in `view`: every
/// cell is visited by y, then x, then z, and each visible face of each
/// element of its model becomes one quad.
pub fn mesh_section(
    pos: SectionPos,
    view: &ChunkLocal,
    blocks: &BlockTable,
    assets: &LoadedAssets,
) -> (r: MeshUpdate)
    requires
        assets.wf(),
        -SECTION_Y_LIMIT <= pos.y < SECTION_Y_LIMIT,
    ensures
        r.pos == pos,
        r.vertices@ == spec_mesh(*view, *blocks, *assets, pos),
        quads_indexed(r.vertices@, r.indices@),
{
    let mut vertices: Vec<Vertex> = Vec::new();
    let mut indices: Vec<u16> = Vec::new();
    let mut i: usize = 0;
    proof {
        assert(quad_indices(0) =~= Seq::<u16>::empty());
    }
    while i < SECTION_BLOCKS
        invariant
            i <= SECTION_BLOCKS,
            assets.wf(),
            -SECTION_Y_LIMIT <= pos.y < SECTION_Y_LIMIT,
            quads_indexed(vertices@, indices@),
            vertices@ == section_vertices(*view, *blocks, *assets, pos.y, i as int),
        decreases SECTION_BLOCKS - i,
    {
        let ly = (i / 256) as i32;
        let lx = ((i / 16) % 16) as i32;
        let lz = (i % 16) as i32;
        let l = BlockPos { x: lx, y: ly, z: lz };
        let p = BlockPos { x: lx, y: 16 * pos.y + ly, z: lz };
        assert(l == cell_of(i as int));
        assert(p == block_of(pos.y, i as int));
        mesh_block(view, blocks, assets, p, l, &mut vertices, &mut indices);
        i = i + 1;
    }
    MeshUpdate { pos, vertices, indices }
}

} // verus!
