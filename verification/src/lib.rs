//! Thrust allocation for vehicles with many thrusters.
//!
//! A vehicle wants to change its velocity in six degrees of freedom; each of
//! its thrusters pushes along a fixed six-axis direction. A strategy turns the
//! wanted change into one firing strength per thruster. Everything here is
//! plain computation on values: storage, physics and rendering belong to the
//! host.
//!
//! The arithmetic is written once, over any number type that implements
//! [`scalar::Scalar`]. Saturating `i64` is built in; a host that works in
//! floating point brings its own number type.

pub mod prelude;
pub mod scalar;
pub mod shared_types;
pub mod strategies;
