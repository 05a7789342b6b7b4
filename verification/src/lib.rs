//! Core logic of a small instanced-cube renderer.
//!
//! The library owns everything that can be stated and proved over plain
//! values: the surface/context lifecycle state machine, the instance grid
//! and its per-frame rotation accounting, the camera parameters, the cube
//! mesh, and the layout of a decoded texture. The windowing and GPU calls
//! that act on these decisions live outside the library.

pub mod camera;
pub mod data;
pub mod instance;
pub mod lifecycle;
pub mod texture;
