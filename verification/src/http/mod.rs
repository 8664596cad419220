//! What the HTTP layer decides: HAL documents and their links, page
//! limits and cursors, request authorization, error statuses, and which
//! responses are marked as errors in traces.

pub mod error;
pub mod hal;
pub mod list;
pub mod router;
