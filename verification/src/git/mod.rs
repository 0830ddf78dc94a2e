//! Where repositories come from and where their copies are put.
pub mod clone;
pub mod workspace;

pub use clone::validate_git_url;
pub use workspace::Workspace;
