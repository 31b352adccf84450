//! Procedural mesh topology and frame-loop control for small animated 3-D scenes.
//!
//! Meshes are built from ordered point lists by one of two topologies, the
//! triangle fan and the quad strip, and carry one fill colour. The frame loop
//! is a state machine that fixes the order of the stages of a frame and the
//! moment at which the loop ends.

pub mod color;
pub mod frame_loop;
pub mod mesh;
pub mod topology;

pub use color::Color;
pub use frame_loop::{FrameLoopDriver, FrameSignal, FrameStage, LoopAction, LoopEvent, LoopState};
pub use mesh::{create_quad_strip, create_triangle_fan, ColoredVertex, IndexedMesh};
pub use topology::{quad_strip_indices, triangle_fan_indices, Triangle};
