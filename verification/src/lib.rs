//! A minimal interactive 3D viewer library: a free-look camera driven by
//! pointer deltas, a fixed cube geometry table, a model of the presentable
//! surface configuration, and the per-frame decision logic of the renderer.
//!
//! All floating-point quantities are carried as binary32 bit patterns
//! (`u32`), so that every decision the library makes is fully specified;
//! the floating-point operations themselves are performed by `glam`
//! behind trusted wrappers.

pub mod camera;
pub mod geometry;
pub mod linalg;
pub mod renderer;
pub mod surface;
pub mod viewer;
