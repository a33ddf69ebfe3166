//! Terrain chunking, height map and splat map logic of the mesh terrain
//! plugin, with the rules that the engine glue relies on stated as contracts.

pub mod chunk_coords;
pub mod heightmap;
pub mod image_data;
pub mod png_encoding;
pub mod stitch;
pub mod splat;
pub mod chunk;
pub mod terrain_config;
