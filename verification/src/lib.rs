//! Core of a deployment control plane: a resource-scoped permission resolver,
//! an update lifecycle that projects and publishes records, a process-wide
//! broadcast bus, and the per-connection session gateway that re-authorizes
//! every event at delivery time.
//!
//! The backing document store, the transport upgrade mechanics and the
//! credential verifiers are external collaborators: they are modeled here as
//! plain data (`store::Store`) and as values handed into the gateway's step
//! functions, so that every decision the core makes is verified.

pub mod model;
pub mod permission;
pub mod bus;
pub mod json;
pub mod store;
pub mod update;
pub mod ws;
pub mod helpers;
