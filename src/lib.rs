//! A software rendering pipeline over integer and fixed-point values.
//!
//! - `framebuffer`: color and depth buffers with the depth-tested write.
//! - `transform`: fixed-point 4x4 matrices, their products, model and
//!   viewport matrices.
//! - `raster`: triangle scan conversion with a top-left fill rule and linear
//!   interpolation of depth, normal and world point.
//! - `shading`: body palettes, the noise lattice and the fragment shader.
//! - `pipeline`: the vertex transform stage and `render`, which draws one
//!   mesh into a framebuffer.
//! - `lines`, `scene`: orbit lines, stars, body sizes and selection.
//! - `camera`: the yaw, pitch and zoom decisions of an orbit camera.

pub mod camera;
pub mod framebuffer;
pub mod geometry;
pub mod lines;
pub mod pipeline;
pub mod raster;
pub mod scene;
pub mod shading;
pub mod transform;
