//! The version sidecar: it reads the version that a resource watcher found
//! and records it as a `Version` custom resource, unless it is recorded already.

pub mod api;
pub mod inputs;
pub mod state;
