//! Converts textured box-and-plane models into voxel structures.
//!
//! The library holds the projection engine: a composable rigid-transform
//! algebra, the per-texel face rasteriser with its brush thickness rule, an
//! orientation-aware nearest-colour material matcher, and the sparse voxel
//! structure with its tag-tree encoding.

pub mod transform;
pub mod drawing;
pub mod materials;
pub mod nbt;
pub mod model;
pub mod items;
pub mod mob;
pub mod skin;
