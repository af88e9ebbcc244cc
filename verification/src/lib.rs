//! Verified rules of a kanban orchestrator: the policy gate that authorises agent actions,
//! the workspace boundaries of task worktrees, and the consistency rules of its event store.
pub mod text;
pub mod domain;
pub mod policy;
pub mod workspace;
pub mod persistence;
