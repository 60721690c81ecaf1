//! The first pipeline monitor: it works out the watchers that the pipelines
//! ask for, and leaves the running watchers alone.

pub mod operations;
pub mod pipelines;
pub mod resources;
