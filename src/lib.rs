//! A single dense voxel chunk and the decisions of the two-pass GPU pipeline
//! that draws it: packed colours, procedural volume generation, the upload
//! payload, compute dispatch sizing, push constants, binding layouts, the
//! per-frame command sequence and the surface resize rules.
pub mod context;
pub mod octree;
pub mod voxels_demo;
