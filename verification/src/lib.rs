//! Layered resolution of a repository's configuration: a JSON document on
//! disk, overlaid by mapped environment variables, overlaid by explicit
//! overrides, with the team identity kept consistent between the value in use
//! and the value that is persisted.
pub mod document;
pub mod env;
pub mod laws;
pub mod repo;
pub mod value;

pub use document::{LoadError, PersistError};
pub use repo::{RepoConfig, RepoConfigLoader};
pub use value::{ConfigKey, RepoConfigValue};
