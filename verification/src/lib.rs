//! Asset-ingestion core of a real-time renderer: parses a flat model of a
//! glTF scene description and converts it into handle-indexed, GPU-ready
//! resources — meshes, primitives and materials — deduplicating shared
//! resources and describing the uploads the host must perform.

pub mod buffers;
pub mod document;
pub mod error;
pub mod material;
pub mod mesh;
pub mod texture;
