//! The logic of a small first-person 3D scene: the mesh that is drawn and the
//! texture on it, the projection settings that follow the window's size, the
//! shader variant that fits the graphics API, and the decisions the render
//! loop takes for each event the window hands over.
//!
//! Nothing here is floating point, and nothing here reaches the window or the
//! GPU. Matrices, camera motion and the calls that do the drawing are left to
//! the program around this crate, which is told by [`render_loop`] what to do
//! and when.

pub mod mesh;
pub mod projection;
pub mod render_loop;
pub mod shaders;
pub mod texture;
