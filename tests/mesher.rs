use chunk_mesher::assets::{BlockModel, Cube, FaceDesc, LoadedAssets};
use chunk_mesher::block_state::{BlockRenderState, Variant, VariantDesc, Variants};
use chunk_mesher::chunk::{
    index_to_offset, offset_to_index, Aabb, BlockInfo, BlockTable, Chunk, ChunkLocal, ChunkPos,
    Section,
};
use chunk_mesher::geom::{generate_uv, BlockPos, Direction, UvRect};
use chunk_mesher::mesher::{mesh_section, MeshUpdate, SectionPos, Vertex};
use chunk_mesher::occlusion::{ao, compute_ao, cull};

const AIR: u32 = 0;
const STONE: u32 = 1;
const SLAB: u32 = 2;

fn full_box() -> Aabb {
    Aabb { min: BlockPos { x: 0, y: 0, z: 0 }, max: BlockPos { x: 16, y: 16, z: 16 } }
}

fn blocks() -> BlockTable {
    BlockTable {
        blocks: vec![
            BlockInfo {
                name: "block/air".to_string(),
                properties: vec![],
                is_air: true,
                opaque: false,
                shape: vec![],
            },
            BlockInfo {
                name: "block/stone".to_string(),
                properties: vec![],
                is_air: false,
                opaque: true,
                shape: vec![full_box()],
            },
            BlockInfo {
                name: "block/slab".to_string(),
                properties: vec![("type".to_string(), "bottom".to_string())],
                is_air: false,
                opaque: true,
                shape: vec![Aabb {
                    min: BlockPos { x: 0, y: 0, z: 0 },
                    max: BlockPos { x: 16, y: 8, z: 16 },
                }],
            },
        ],
    }
}

fn face(texture: &str, cull: Direction) -> Option<FaceDesc> {
    Some(FaceDesc { uv: None, texture: texture.to_string(), cullface: Some(cull) })
}

fn full_cube() -> Cube {
    Cube {
        from: BlockPos { x: 0, y: 0, z: 0 },
        to: BlockPos { x: 256, y: 256, z: 256 },
        down: face("#all", Direction::Down),
        up: face("#all", Direction::Up),
        north: face("#all", Direction::North),
        south: face("#all", Direction::South),
        west: face("#all", Direction::West),
        east: face("#all", Direction::East),
    }
}

fn single(model: &str) -> BlockRenderState {
    BlockRenderState::Variants(Variants::Keyed(vec![(
        "".to_string(),
        Variant::Single(VariantDesc { model: model.to_string(), y: 0, x: 0, uvlock: false }),
    )]))
}

fn assets() -> LoadedAssets {
    let mut a = LoadedAssets::new();
    a.add_texture("block/dirt".to_string());
    a.add_texture("block/stone".to_string());
    assert!(a.add_block_model(
        "block/cube_all".to_string(),
        BlockModel {
            parent: None,
            textures: vec![],
            ambient_occlusion: true,
            elements: Some(vec![full_cube()]),
        },
    ));
    assert!(a.add_block_model(
        "block/stone".to_string(),
        BlockModel {
            parent: Some("minecraft:block/cube_all".to_string()),
            textures: vec![("all".to_string(), "minecraft:block/stone".to_string())],
            ambient_occlusion: true,
            elements: None,
        },
    ));
    a.add_block_state("block/stone".to_string(), single("minecraft:block/stone"));
    a
}

fn idx(x: i32, y: i32, z: i32) -> usize {
    ((y * 16 + z) * 16 + x) as usize
}

fn view_with(cells: &[(i32, i32, i32, u32)]) -> ChunkLocal {
    let mut states = vec![AIR; 4096];
    for &(x, y, z, id) in cells {
        states[idx(x, y, z)] = id;
    }
    ChunkLocal {
        chunk: Chunk { min_section: 0, sections: vec![Section { states }] },
        neighbors: vec![None, None, None, None, None, None, None, None],
    }
}

fn mesh(view: &ChunkLocal) -> MeshUpdate {
    mesh_section(SectionPos { x: 0, y: 0, z: 0 }, view, &blocks(), &assets())
}

fn check_indices(m: &MeshUpdate) {
    assert_eq!(m.vertices.len() % 4, 0);
    assert_eq!(m.indices.len(), m.vertices.len() / 4 * 6);
    for q in 0..m.vertices.len() / 4 {
        let b = (4 * q) as u16;
        assert_eq!(&m.indices[6 * q..6 * q + 6], &[b, b + 1, b + 2, b, b + 2, b + 3]);
    }
}

#[test]
fn single_block_yields_six_quads() {
    let m = mesh(&view_with(&[(0, 0, 0, STONE)]));
    assert_eq!(m.vertices.len(), 24);
    assert_eq!(m.indices.len(), 36);
    check_indices(&m);
    for v in &m.vertices {
        assert_eq!(v.texture, 1);
        assert!(0 <= v.x && v.x <= 256 && 0 <= v.y && v.y <= 256 && 0 <= v.z && v.z <= 256);
        assert_eq!(v.ao, 3);
    }
    // the up face comes first, at the top (y = 256), wound (0,0) (0,1) (1,1) (1,0)
    assert_eq!(m.vertices[0], Vertex { x: 0, y: 256, z: 0, u: 0, v: 0, ao: 3, texture: 1 });
    assert_eq!(m.vertices[1], Vertex { x: 0, y: 256, z: 256, u: 256, v: 0, ao: 3, texture: 1 });
    assert_eq!(m.vertices[2], Vertex { x: 256, y: 256, z: 256, u: 256, v: 256, ao: 3, texture: 1 });
    assert_eq!(m.vertices[3], Vertex { x: 256, y: 256, z: 0, u: 0, v: 256, ao: 3, texture: 1 });
}

#[test]
fn open_block_emits_every_declared_face() {
    let m = mesh(&view_with(&[(5, 7, 9, STONE)]));
    assert_eq!(m.vertices.len(), 24);
    check_indices(&m);
    for q in 0..6 {
        let quad = &m.vertices[4 * q..4 * q + 4];
        for a in 0..4 {
            for b in a + 1..4 {
                assert_ne!(quad[a], quad[b]);
            }
        }
    }
}

#[test]
fn adjacent_blocks_hide_their_shared_faces() {
    let m = mesh(&view_with(&[(0, 0, 0, STONE), (1, 0, 0, STONE)]));
    assert_eq!(m.vertices.len(), 40);
    assert_eq!(m.indices.len(), 60);
    check_indices(&m);
    // no face lies on the shared plane x = 256
    for q in 0..10 {
        let quad = &m.vertices[4 * q..4 * q + 4];
        assert!(!quad.iter().all(|v| v.x == 256));
    }
}

#[test]
fn enclosed_block_emits_nothing() {
    let cells = [
        (5, 5, 5, STONE),
        (4, 5, 5, STONE),
        (6, 5, 5, STONE),
        (5, 4, 5, STONE),
        (5, 6, 5, STONE),
        (5, 5, 4, STONE),
        (5, 5, 6, STONE),
    ];
    let m = mesh(&view_with(&cells));
    // six outer blocks with five open sides each; the centre shows nothing
    assert_eq!(m.vertices.len(), 6 * 5 * 4);
    check_indices(&m);
    for v in &m.vertices {
        let inside = 1280 < v.x && v.x < 1536 && 1280 < v.y && v.y < 1536 && 1280 < v.z && v.z < 1536;
        assert!(!inside);
    }
}

#[test]
fn meshing_twice_gives_identical_output() {
    let view = view_with(&[(0, 0, 0, STONE), (3, 4, 5, STONE), (3, 5, 5, SLAB)]);
    let a = mesh(&view);
    let b = mesh(&view);
    assert_eq!(a.vertices, b.vertices);
    assert_eq!(a.indices, b.indices);
    assert_eq!(a.pos, b.pos);
}

#[test]
fn empty_section_has_no_geometry() {
    let m = mesh(&view_with(&[]));
    assert!(m.vertices.is_empty());
    assert!(m.indices.is_empty());
}

#[test]
fn partial_neighbor_does_not_hide_a_face() {
    // a bottom slab below a stone block does not reach the stone's bottom
    // side; a bottom slab above covers the stone's top side
    let view = view_with(&[(5, 5, 5, STONE), (5, 4, 5, SLAB), (5, 6, 5, SLAB)]);
    let b = blocks();
    let down = FaceDesc { uv: None, texture: "#all".to_string(), cullface: Some(Direction::Down) };
    let up = FaceDesc { uv: None, texture: "#all".to_string(), cullface: Some(Direction::Up) };
    let shape = vec![full_box()];
    let pos = BlockPos { x: 5, y: 5, z: 5 };
    assert!(!cull(&down, pos, &shape, &view, &b));
    assert!(cull(&up, pos, &shape, &view, &b));
    // with air above, the up face is not culled
    let view2 = view_with(&[(5, 5, 5, STONE), (5, 4, 5, STONE)]);
    assert!(!cull(&up, pos, &shape, &view2, &b));
    assert!(cull(&down, pos, &shape, &view2, &b));
    // a face with no cull direction is never culled
    let plain = FaceDesc { uv: None, texture: "#all".to_string(), cullface: None };
    assert!(!cull(&plain, pos, &shape, &view2, &b));
}

#[test]
fn slab_bottom_is_hidden_by_full_block_below() {
    let view = view_with(&[(5, 5, 5, SLAB), (5, 4, 5, STONE)]);
    let b = blocks();
    let down = FaceDesc { uv: None, texture: "#all".to_string(), cullface: Some(Direction::Down) };
    let slab_shape = b.blocks[SLAB as usize].shape.clone();
    assert!(cull(&down, BlockPos { x: 5, y: 5, z: 5 }, &slab_shape, &view, &b));
}

#[test]
fn ao_levels() {
    assert_eq!(ao(false, false, false), 3);
    assert_eq!(ao(false, false, true), 2);
    assert_eq!(ao(true, false, false), 2);
    assert_eq!(ao(false, true, true), 1);
    assert_eq!(ao(true, false, true), 1);
    assert_eq!(ao(true, true, false), 0);
    assert_eq!(ao(true, true, true), 0);
    for s1 in [false, true] {
        for s2 in [false, true] {
            for c in [false, true] {
                assert_eq!(ao(s1, s2, c), ao(s2, s1, c));
            }
        }
    }
}

#[test]
fn ao_samples_neighbors_of_the_corner() {
    let b = blocks();
    let pos = BlockPos { x: 5, y: 5, z: 5 };
    let up = BlockPos { x: 0, y: 1, z: 0 };
    // corner (0,1,0) of the up face: probes (5,6,4), (4,6,5) and (4,6,4)
    let corner = BlockPos { x: 0, y: 1, z: 0 };
    assert_eq!(compute_ao(pos, corner, up, &view_with(&[]), &b), 3);
    assert_eq!(compute_ao(pos, corner, up, &view_with(&[(4, 6, 4, STONE)]), &b), 2);
    assert_eq!(compute_ao(pos, corner, up, &view_with(&[(5, 6, 4, STONE)]), &b), 2);
    assert_eq!(compute_ao(pos, corner, up, &view_with(&[(5, 6, 4, STONE), (4, 6, 4, STONE)]), &b), 1);
    assert_eq!(compute_ao(pos, corner, up, &view_with(&[(5, 6, 4, STONE), (4, 6, 5, STONE)]), &b), 0);
    // a slab is not solid for occlusion
    assert_eq!(compute_ao(pos, corner, up, &view_with(&[(4, 6, 4, SLAB)]), &b), 3);
}

#[test]
fn occluded_vertices_are_darkened_in_the_mesh() {
    let m = mesh(&view_with(&[(5, 5, 5, STONE), (4, 6, 4, STONE)]));
    // the up face of (5,5,5) comes first; its first corner is (0,1,0)
    assert_eq!(m.vertices[0].x, 1280);
    assert_eq!(m.vertices[0].y, 1536);
    assert_eq!(m.vertices[0].z, 1280);
    assert_eq!(m.vertices[0].ao, 2);
    assert_eq!(m.vertices[2].ao, 3);
}

#[test]
fn neighbor_chunks_are_consulted() {
    let mut states = vec![AIR; 4096];
    states[idx(15, 0, 0)] = STONE;
    let west = Chunk { min_section: 0, sections: vec![Section { states }] };
    let mut view = view_with(&[(0, 0, 0, STONE)]);
    view.neighbors[3] = Some(west);
    assert_eq!(view.get_block(BlockPos { x: -1, y: 0, z: 0 }), Some(STONE));
    assert_eq!(view.get_block(BlockPos { x: -1, y: 0, z: 1 }), Some(AIR));
    assert_eq!(view.get_block(BlockPos { x: 16, y: 0, z: 0 }), None);
    assert_eq!(view.get_block(BlockPos { x: 0, y: 16, z: 0 }), None);
    assert_eq!(view.get_block(BlockPos { x: 0, y: -1, z: 0 }), None);
    assert_eq!(view.get_block(BlockPos { x: 40, y: 0, z: 0 }), None);
    let m = mesh(&view);
    // the west face of (0,0,0) is hidden by the neighbour chunk's block
    assert_eq!(m.vertices.len(), 20);
}

#[test]
fn vertical_sections_are_addressed_by_world_height() {
    let mut low = vec![AIR; 4096];
    low[idx(0, 15, 0)] = STONE;
    let high = vec![AIR; 4096];
    let view = ChunkLocal {
        chunk: Chunk {
            min_section: -1,
            sections: vec![Section { states: low }, Section { states: high }],
        },
        neighbors: vec![None, None, None, None, None, None, None, None],
    };
    assert_eq!(view.get_block(BlockPos { x: 0, y: -1, z: 0 }), Some(STONE));
    assert_eq!(view.get_block(BlockPos { x: 0, y: 0, z: 0 }), Some(AIR));
    assert_eq!(view.get_block(BlockPos { x: 0, y: -17, z: 0 }), None);
    assert_eq!(view.get_block(BlockPos { x: 0, y: 16, z: 0 }), None);
    let m = mesh_section(SectionPos { x: 0, y: -1, z: 0 }, &view, &blocks(), &assets());
    assert_eq!(m.vertices.len(), 24);
    // positions are relative to the section's lowest corner
    assert!(m.vertices.iter().all(|v| v.y >= 3840 && v.y <= 4096));
}

#[test]
fn offset_table_round_trips() {
    for i in 0..8usize {
        let off = index_to_offset(i).unwrap();
        assert_eq!(offset_to_index(off), Some(i));
    }
    assert_eq!(index_to_offset(8), None);
    assert_eq!(index_to_offset(3), Some(ChunkPos { x: -1, z: 0 }));
    assert_eq!(offset_to_index(ChunkPos { x: 0, z: 0 }), None);
    assert_eq!(offset_to_index(ChunkPos { x: 2, z: 0 }), None);
}

#[test]
fn uv_defaults_and_rectangles() {
    assert_eq!(generate_uv(Direction::Up, None, 0), (0, 0));
    assert_eq!(generate_uv(Direction::Up, None, 2), (256, 256));
    assert_eq!(generate_uv(Direction::North, None, 0), (0, 256));
    assert_eq!(generate_uv(Direction::South, None, 1), (256, 256));
    let r = UvRect { u0: 2, v0: 4, u1: 6, v1: 8 };
    assert_eq!(generate_uv(Direction::Down, Some(r), 1), (6, 4));
    assert_eq!(generate_uv(Direction::East, Some(r), 3), (6, 8));
    assert_eq!(generate_uv(Direction::West, Some(r), 3), (2, 4));
}

#[test]
fn unknown_blocks_and_missing_textures_degrade() {
    // an id beyond the table, and a block without a block-state table
    let mut table = blocks();
    table.blocks.push(BlockInfo {
        name: "block/unknown".to_string(),
        properties: vec![],
        is_air: false,
        opaque: true,
        shape: vec![full_box()],
    });
    let view = view_with(&[(0, 0, 0, 3), (2, 0, 0, 99)]);
    let m = mesh_section(SectionPos { x: 0, y: 0, z: 0 }, &view, &table, &assets());
    assert!(m.vertices.is_empty());
    // a texture that is not registered falls back to index 0
    let mut a = assets();
    assert!(a.add_block_model(
        "block/stone".to_string(),
        BlockModel {
            parent: Some("block/cube_all".to_string()),
            textures: vec![("all".to_string(), "block/unregistered".to_string())],
            ambient_occlusion: false,
            elements: None,
        },
    ));
    let m = mesh_section(SectionPos { x: 0, y: 0, z: 0 }, &view_with(&[(0, 0, 0, STONE)]), &blocks(), &a);
    assert_eq!(m.vertices.len(), 24);
    assert!(m.vertices.iter().all(|v| v.texture == 0 && v.ao == 3));
}

#[test]
fn half_block_elements_keep_their_size() {
    let mut a = assets();
    let mut slab = full_cube();
    slab.to.y = 128;
    assert!(a.add_block_model(
        "block/stone".to_string(),
        BlockModel {
            parent: None,
            textures: vec![("all".to_string(), "block/stone".to_string())],
            ambient_occlusion: false,
            elements: Some(vec![slab]),
        },
    ));
    let m = mesh_section(SectionPos { x: 0, y: 0, z: 0 }, &view_with(&[(0, 0, 0, STONE)]), &blocks(), &a);
    assert_eq!(m.vertices.len(), 24);
    assert!(m.vertices.iter().all(|v| v.y == 0 || v.y == 128));
    assert_eq!(m.vertices[0].y, 128);
}

#[test]
fn large_sections_are_indexed_in_batches() {
    // a section full of see-through blocks shows every face of every block
    let mut table = blocks();
    table.blocks[STONE as usize].opaque = false;
    let states = vec![STONE; 4096];
    let view = ChunkLocal {
        chunk: Chunk { min_section: 0, sections: vec![Section { states }] },
        neighbors: vec![None, None, None, None, None, None, None, None],
    };
    let m = mesh_section(SectionPos { x: 0, y: 0, z: 0 }, &view, &table, &assets());
    let quads = 4096 * 6;
    assert_eq!(m.vertices.len(), quads * 4);
    assert_eq!(m.indices.len(), quads * 6);
    for q in [0usize, 16383, 16384, quads - 1] {
        let base = 65536 * (q / 16384);
        for (j, o) in [0usize, 1, 2, 0, 2, 3].iter().enumerate() {
            assert_eq!(base + m.indices[6 * q + j] as usize, 4 * q + o);
        }
    }
}
