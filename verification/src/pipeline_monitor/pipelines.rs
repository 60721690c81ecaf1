use vstd::prelude::*;
use crate::meta::ObjectMeta;

verus! {

/// A resource that a pipeline names, and whether a new version of it triggers the pipeline.
pub struct Resource {
    pub name: String,
    pub trigger: bool,
}

/// A step of a pipeline.
pub struct Step {
    pub name: String,
    pub resource: Option<String>,
    pub action: Option<String>,
    pub path: Option<String>,
    pub image: Option<String>,
    pub command: Option<Vec<String>>,
}

/// The spec of a `Pipeline` custom resource (group `minion.ponglehub.com`, version `v1`).
pub struct PipelineSpec {
    pub resources: Vec<Resource>,
    pub steps: Vec<Step>,
}

/// A `Pipeline` custom resource: its metadata and spec.
pub struct Pipeline {
    pub metadata: ObjectMeta,
    pub spec: PipelineSpec,
}

} // verus!
