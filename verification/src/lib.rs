//! Interactive glTF scene viewer: the verified core.
//!
//! The viewer's pose pipeline — orbit camera state, input translation,
//! frame timing, fit-to-bounds, and screenshot bookkeeping — is kept here
//! over exact fixed-point integers. Window-system plumbing, the GPU draw
//! path and file encoding are floating-point and I/O work and live in the
//! surrounding application, which converts at the boundary.

pub mod camera;
pub mod controls;
pub mod events;
pub mod fit;
pub mod math;
pub mod naming;
pub mod pixels;
pub mod timer;
pub mod viewer;
