//! Deployment tiers and the configuration keyed by them.
pub mod environment;
pub mod environments;
pub mod hierarchy;

pub use environment::Environment;
pub use environments::Environments;
pub use hierarchy::Hierarchy;
