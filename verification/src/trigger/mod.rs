//! What the trigger engine computes: GitHub API addresses and headers, the
//! claims of the app's token, the dispatch payload, and what becomes of a
//! processed trigger.

pub mod auth;
pub mod dispatch;
pub mod github;
pub mod process;
