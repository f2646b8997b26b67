//! Procedural tessellation of primitive solids into flat, non-indexed
//! triangle lists, a fixed-stride vertex encoding, and the argument set of
//! the video encoder run that turns rendered frames into a film.
//!
//! Geometry is described exactly: every vertex a generator emits is a
//! [`sample::Sample`], a symbolic recipe (angles as fractions of a turn,
//! cube corners as signs) that a renderer evaluates at its own precision.

pub mod sample;
pub mod plan;
pub mod object;
pub mod vertex;
pub mod film;
pub mod timeline;
