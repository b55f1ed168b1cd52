//! A turntable ("pan/orbit") camera controller and a subdivided planar grid
//! mesh generator, both written over exact fixed-point arithmetic so that
//! every update rule and every generated buffer is fully specified and
//! machine-checked.
//!
//! Scalars are stored as `i64` counts of millionths of a unit; see
//! [`fixed::SCALE`]. A host renderer converts to and from its own floating
//! point formats at the boundary.

pub mod fixed;
pub mod geom;
pub mod trig;
pub mod plane;
pub mod camera;
