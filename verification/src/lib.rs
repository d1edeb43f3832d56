//! Voxel-world mesh-baking core: converts a cube of block-state data into
//! direction-partitioned vertex geometry, performing neighbor-aware face
//! culling and model-variant resolution (cube, complex, and multipart models).

pub mod bake;
pub mod chunk;
pub mod laws;
pub mod layer;
pub mod mapper;
pub mod model;
pub mod provider;
pub mod registry;
pub mod state;
