use vstd::prelude::*;
use crate::meta::ObjectMeta;

verus! {

/// One key of a secret and the file it is mounted as.
pub struct SecretKey {
    pub key: String,
    pub path: String,
}

/// A secret that a pipeline's resource uses.
pub struct Secret {
    pub name: String,
    pub keys: Vec<SecretKey>,
}

/// A resource that a pipeline names, whether it triggers the pipeline, and
/// the secrets and environment it needs.
pub struct Resource {
    pub name: String,
    pub trigger: bool,
    pub secrets: Vec<Secret>,
    pub env: std::collections::BTreeMap<String, String>,
}

/// A step of a pipeline.
pub struct Step {
    pub name: String,
    pub resource: Option<String>,
    pub action: Option<String>,
    pub path: Option<String>,
    pub image: Option<String>,
    pub command: Option<Vec<String>>,
}

/// The spec of a pipeline.
pub struct Pipeline {
    pub resources: Vec<Resource>,
    pub steps: Vec<Step>,
}

/// A pipeline custom resource: its metadata and its spec.
pub struct KubePipeline {
    pub metadata: ObjectMeta,
    pub spec: Pipeline,
}

} // verus!
