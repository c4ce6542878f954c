//! A gateway that exposes a messaging account, reachable only through a
//! companion command-line daemon, as a programmable service.
//!
//! The crate holds the decisions of the gateway: how a command becomes a
//! line on the daemon's socket, how a line coming back finds the caller that
//! waits for it, when the daemon counts as started or stopped, and what a
//! linking attempt ends in. The program around it owns the processes, the
//! socket and the clocks, and reports what happens to them as events.

pub mod json;
pub mod jwt;
pub mod routes;
pub mod signal;
pub mod text;
pub mod webhooks;
