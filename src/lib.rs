//! Chunk meshing for a voxel world client: turns a snapshot of one chunk
//! (with its neighbours) and a catalog of block models into per-section
//! vertex and index lists.
//!
//! - `assets`: the model catalog, parent chains and texture references.
//! - `block_state`: block-state tables and variant selection.
//! - `chunk`: chunk snapshots and block lookup across chunk borders.
//! - `occlusion`: face culling and per-vertex ambient occlusion.
//! - `mesher`: the section mesher.
//! - `mesh_laws`: what the mesher's output obeys.
//! - `pipeline`: the meshing worker's scheduling policy.
//! - `store`: the render side's per-section geometry store.

pub mod assets;
pub mod block_state;
pub mod chunk;
pub mod geom;
pub mod mesh_laws;
pub mod mesher;
pub mod occlusion;
pub mod pipeline;
pub mod store;
pub mod text;
