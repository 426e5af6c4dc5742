//! Core of a small 3D model viewer: asset ingestion (geometry validation,
//! material resolution, bounding volumes) and an orbital camera controller.
//!
//! All geometry is carried in signed 64-bit fixed-point coordinates with a
//! scale of one million units per world unit, so every rule of the core is
//! stated and proved over plain integers. The rendering layer converts to
//! its own floating-point types at the boundary.

pub mod bounding;
pub mod camera;
pub mod engine;
pub mod fixed;
pub mod importer;
pub mod material;
pub mod scene;
pub mod texture;
pub mod trig;
