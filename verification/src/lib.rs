//! Verified core of a service that watches remote git branches and
//! dispatches `repository_dispatch` events to subscribed repositories.

pub mod config;
pub mod domain;
pub mod external;
pub mod http;
pub mod model;
pub mod polling;
pub mod repository;
pub mod telemetry;
pub mod text;
pub mod trigger;
