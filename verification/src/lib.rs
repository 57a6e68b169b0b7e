//! Parametric generator for 3D-printable optical-lens support rings.
//!
//! A ring is described by a style ([`ring_type::RingType`]) and two
//! diameters; the generator revolves a style-specific cross-section
//! profile through 64 angular segments and emits an ordered sequence of
//! oriented triangles. All lengths are carried as integers: ring
//! parameters in tenths of a millimetre, mesh coordinates in
//! micrometres. A mesh vertex names its position in cylindrical
//! coordinates (radius, angular segment, axial height); turning that
//! into Cartesian floating-point coordinates, and writing STL files,
//! is left to unverified front ends.

pub mod concave;
pub mod convex;
pub mod generate;
pub mod mesh;
pub mod params;
pub mod preview;
pub mod printing;
pub mod response;
pub mod revolve;
pub mod ring_type;
pub mod three_point;
