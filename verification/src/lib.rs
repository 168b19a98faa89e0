//! Verified core of a real-time cube renderer.
//!
//! The library models the state that drives a GPU-backed render loop: the
//! surface configuration and its resize rules, the per-frame orchestration
//! decisions (draw, reconfigure, skip, or abort), the rolling frame-time
//! statistics behind the debug overlay, the static cube mesh data, and the
//! fixed pipeline and vertex-layout contract. Window handling and the GPU
//! calls themselves live outside the library and act on the decisions and
//! values it produces.

pub mod geometry;
pub mod overlay;
pub mod pipeline;
pub mod profiler;
pub mod renderer;
pub mod vertex;
