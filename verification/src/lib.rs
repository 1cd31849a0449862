//! A declarative scene renderer core: descriptor values (an immutable,
//! structurally compared tree language) are compiled into CPU-side resources
//! (meshes, pixel buffers, shader sources), shared through content-addressed
//! caches, and kept in sync with a mutating scene graph by an incremental
//! synchronizer.

pub mod assets;
pub mod error;
pub mod cache;
pub mod pon;
pub mod pon_to_resource;
pub mod renderer;
pub mod viewport;
