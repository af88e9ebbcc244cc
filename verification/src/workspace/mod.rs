//! The workspace boundary: every task works in its own Git worktree beside the project
//! repository, and may touch nothing outside it.
pub mod error;
pub mod names;
pub mod paths;
pub mod git;
pub mod git_cli;
pub mod clone_url;
pub mod requests;
pub mod manager;

pub use error::{GitError, PathAccess, WorkspaceError, WorkspaceErrorSource};
