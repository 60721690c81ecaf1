//! The pipeline monitor: it compares the resource watchers that the pipelines
//! ask for with the watcher CronJobs that run, and builds the watchers' manifests.

pub mod cron;
pub mod laws;
pub mod operations;
pub mod pipelines;
pub mod resource_watcher;
pub mod resources;
