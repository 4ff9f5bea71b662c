//! Verified core of the NV2 voxel engine: block registry, launcher
//! argument parsing, gameplay progression, terrain-column assembly and the
//! embedded climate-grid format.

pub mod block;
pub mod text;
pub mod egs;
pub mod biomes;
pub mod gameplay;
pub mod textures;
pub mod meteo;
pub mod ai;
