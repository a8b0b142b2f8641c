//! Git-worktree-backed agent workspace lifecycle management.
//!
//! The library gives each autonomous agent an isolated, git-tracked working
//! directory ("worktree") carved out of a shared repository ("rig"), commits
//! the agent's changes, inspects workspace state, and tears the workspace
//! down afterward.  Git's own on-disk metadata format is treated as correct
//! and is reached through a small trusted boundary over libgit2; everything
//! around that boundary is verified.

pub mod backend;
pub mod commit;
pub mod dashboard;
pub mod errors;
pub mod executor;
pub mod laws;
pub mod lifecycle;
pub mod model;
pub mod orchestrator;
pub mod repo;
