//! What the polling engine decides: which branches moved, which remote
//! reference gives a branch's latest commit, and how a failed cycle is
//! handled.

pub mod branch;
pub mod error;
pub mod git;
