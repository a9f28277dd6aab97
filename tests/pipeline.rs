use chunk_mesher::assets::LoadedAssets;
use chunk_mesher::chunk::{BlockTable, Chunk, ChunkLocal, ChunkPos, Section};
use chunk_mesher::mesher::SectionPos;
use chunk_mesher::pipeline::{mesh_chunk, next_action, QueueState, WorkerAction};
use QueueState::{Closed, Empty, Ready};
use chunk_mesher::store::SectionStore;

#[test]
fn high_priority_updates_come_first() {
    assert_eq!(next_action(Ready, Ready, true), WorkerAction::MeshHigh);
    assert_eq!(next_action(Ready, Empty, true), WorkerAction::MeshHigh);
    assert_eq!(next_action(Empty, Ready, true), WorkerAction::MeshLow);
    assert_eq!(next_action(Closed, Ready, true), WorkerAction::MeshLow);
    assert_eq!(next_action(Empty, Empty, true), WorkerAction::Wait);
    assert_eq!(next_action(Closed, Empty, true), WorkerAction::Wait);
    assert_eq!(next_action(Closed, Closed, true), WorkerAction::Stop);
    assert_eq!(next_action(Ready, Ready, false), WorkerAction::Stop);
}

#[test]
fn sections_are_meshed_bottom_up() {
    let sections = (0..3).map(|_| Section { states: vec![0; 4096] }).collect();
    let view = ChunkLocal {
        chunk: Chunk { min_section: -4, sections },
        neighbors: vec![None, None, None, None, None, None, None, None],
    };
    let out = mesh_chunk(ChunkPos { x: 7, z: -2 }, &view, &BlockTable { blocks: vec![] }, &LoadedAssets::new());
    let ys: Vec<i32> = out.iter().map(|m| m.pos.y).collect();
    assert_eq!(ys, vec![-4, -3, -2]);
    assert!(out.iter().all(|m| m.pos.x == 7 && m.pos.z == -2 && m.vertices.is_empty()));
}

#[test]
fn store_replaces_geometry_of_the_same_section() {
    let mut store: SectionStore<u32> = SectionStore::new();
    let a = SectionPos { x: 0, y: 1, z: 0 };
    let b = SectionPos { x: 0, y: 2, z: 0 };
    store.upsert(a, 10);
    store.upsert(b, 20);
    store.upsert(a, 11);
    assert_eq!(store.len(), 2);
    assert_eq!(store.get(a), Some(&11));
    assert_eq!(store.get(b), Some(&20));
    assert_eq!(store.get(SectionPos { x: 1, y: 1, z: 0 }), None);
}
