//! Sampling decisions, octree keys and the binary tile layout of a
//! mesh-to-point-cloud converter.

pub mod ept;
pub mod error;
pub mod octree;
pub mod parser;
pub mod sampling;
pub mod tile;
