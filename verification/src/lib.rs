//! A verified 3D affine-transform engine for a wireframe/solid viewer.
//!
//! The engine owns a collection of named objects in world space, builds 4x4
//! homogeneous transform matrices (identity, rotation about each axis, scale,
//! translate), composes them, and steps an animated operation across a number
//! of frames by applying a per-tick "step matrix" to every object.  A simple
//! centroid-Z painter's rule decides paint order.
//!
//! All scalars are fixed-point: an `i64` counts multiples of `1/ONE` of a
//! world unit (see [`fixed::ONE`]).  Rotation matrices are built from a
//! sine/cosine pair supplied by the host, since the library itself performs
//! no trigonometry.

pub mod depth;
pub mod engine;
pub mod fixed;
pub mod matrix;
pub mod object;
pub mod operation;
pub mod point;
pub mod text;
pub mod ui;
pub mod world;
