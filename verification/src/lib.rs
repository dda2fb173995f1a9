//! Keeps the clients and users of an authorization service in step with the
//! resources declared for them in a cluster.
//!
//! The library decides and never performs: every network call, watch and
//! status patch is handed to the caller as a value, and its result is handed
//! back as a value.

pub mod api;
pub mod convergence;
pub mod doorman;
pub mod gatekeeper;
pub mod migrations;
pub mod mock;
pub mod operator;
pub mod reconciler;
pub mod reply;
pub mod resources;
pub mod server;
pub mod status;
pub mod supervisor;
pub mod text;
pub mod watch;
