//! A software 3D rendering pipeline over saturating fixed-point arithmetic.
//!
//! The crate transforms, clips, rasterizes and shades triangle meshes on the
//! CPU, writing pixels into an owned color + depth framebuffer. All numeric
//! work is done on [`fixed::Fx`], a signed 16.16 fixed-point scalar whose
//! operations saturate instead of wrapping, so every stage has an exact
//! arithmetic contract.

pub mod fixed;
pub mod trig;
pub mod vec3;
pub mod matrix;
pub mod noise;
pub mod fragment;
pub mod uniforms;
pub mod shaders;
pub mod framebuffer;
pub mod raster;
pub mod pipeline;
pub mod render;
pub mod skybox;
