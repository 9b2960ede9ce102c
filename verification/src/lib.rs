//! A CPU-only 3D-to-2D rendering pipeline over fixed-point arithmetic.
//!
//! Geometric primitives (lines and triangles) are carried from local object
//! space through model/world/camera transforms, culled against the camera
//! viewport, rasterized into colored depth-tagged fragments, and composited
//! into a packed pixel buffer with depth testing and alpha blending.
//!
//! Every scalar quantity (coordinate, color channel, depth, angle) is a
//! [`fixed::Fixed`] value: a signed 64-bit count of 10^-8 units. This gives
//! the pipeline exact, total arithmetic; the comparison epsilon of 10^-5
//! that the equality helpers of [`math`] tolerate is exactly 1000 raw units.

pub mod color;
pub mod compositor;
pub mod fixed;
pub mod geometry;
pub mod math;
pub mod rasterizer;
pub mod timer;
pub mod world;
