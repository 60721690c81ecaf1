//! Decision logic of the minion continuous-integration operators: which
//! resource watchers a pipeline monitor must create, update or delete, the
//! manifests it sends, and the small rules of the sidecars and utilities.

pub mod file_inspector;
pub mod meta;
pub mod minion_controller;
pub mod pipeline_monitor;
pub mod pipeline_monitor_legacy;
pub mod resource_sidecar;
pub mod text;
pub mod version_monitor;
pub mod version_sidecar;
