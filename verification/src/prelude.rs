pub use crate::scalar::Scalar;
pub use crate::shared_types::components::{CurrentVelocity, IntendedVelocity, Thruster};
pub use crate::shared_types::{ForceAxis, Relative6DVector, Vec6, Vec6Iterator};
pub use crate::strategies::{ExactAxisStrategy, ParentInfo, PureStrategy, ThrusterInfo};
