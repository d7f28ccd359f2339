//! Chunked voxel meshing and GPU-driven draw-command generation.
//!
//! The library holds the logic of the pipeline: the voxel registry and face
//! models, the cell/world grids, the per-cell face-visibility mesher with its
//! packed face records, the fixed-slab block layout that places each cell's
//! data in device memory, and the generator of indirect draw arguments.

pub mod voxel;
pub mod world;
pub mod face;
pub mod mesh;
pub mod block_buffer;
pub mod render;
pub mod resource;
