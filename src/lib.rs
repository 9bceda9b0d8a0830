//! Rendering layout of a hexagonal world chunk: the per-section instance
//! records fed to the GPU, the placement of plants on their pillars, and the
//! settings and order of the shadow and color passes.

pub mod geometry;
pub mod world;
pub mod layout;
pub mod pass;
