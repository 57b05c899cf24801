//! Drive environment-specific configuration from the tables of a TOML
//! document.
//!
//! [`Environments`] holds one configuration record for each key of an
//! environment hierarchy, and hands out the record of the environment that
//! the process currently runs in. The keys are those of [`Environment`]
//! (Prod -> Stage -> Test -> Dev -> Local) or of any other type that
//! implements [`Hierarchy`].
pub mod env;
pub mod error;
pub mod text;

pub use env::{Environment, Environments, Hierarchy};
pub use error::{ErrCode, ErrSource, Error, ErrorKind, ErrorView, VarError};
