//! Core of a real-time scene renderer: camera transforms, per-instance model
//! matrices, surface/depth-target configuration and the per-frame render state
//! machine, all stated over exact fixed-point arithmetic so that every
//! transform the renderer uploads is pinned down by a contract.
//!
//! GPU device work, windowing and asset decoding are collaborators that live
//! outside this crate; the library computes every decision and every matrix
//! the render loop needs from plain values.

pub mod camera;
pub mod events;
pub mod frame;
pub mod fx;
pub mod gameplay;
pub mod trig;
pub mod instance;
pub mod layout;
pub mod mat;
pub mod model;
pub mod pipeline;
pub mod quat;
pub mod surface;
pub mod vec3;
