//! A verified scene-to-GPU uniform synchronization layer.
//!
//! The crate models the lifecycle of a shader program (stage compilation,
//! linking, binding), the resolution of named uniform variables against a
//! linked program, and the per-frame plan of uniform writes that keeps a
//! mutable scene (camera plus spheres) synchronized with the graphics
//! pipeline. Everything the driver itself computes (handle allocation,
//! stage compilation, location queries) enters through plain values, so the
//! decision logic here is verified for every outcome the driver can report.

pub mod driver;
pub mod names;
pub mod objects;
pub mod shader_program;
pub mod uniform;
pub mod vec3;

