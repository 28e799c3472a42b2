//! A client library for a pellet-stove remote-control portal, verified with
//! Verus: the session handling that recovers from a lost login, the reading
//! of the portal's pages and status snapshots, and the controls updates
//! sent back to it.
//!
//! The HTTP transport is not part of this crate: callers send the requests
//! and feed the answers to [`auth::AuthRetry`], which decides what happens
//! next.

pub mod auth;
pub mod controls;
pub mod endpoint;
pub mod model;
pub mod stove;
pub mod summary;
pub mod text;
