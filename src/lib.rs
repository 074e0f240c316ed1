pub mod cargo;
pub mod manifest;
pub mod release;
pub mod repository;
pub mod text;
pub mod version;

pub use cargo::Cargo;
pub use manifest::{Manifest, ManifestError};
pub use release::{Action, GitCommitMessage, Outcome, Release, ReleaseError, Reply, Run, Step};
pub use repository::Repository;
pub use version::{BumpLevel, Version};
