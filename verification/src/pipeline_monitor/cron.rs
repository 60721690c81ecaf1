use vstd::prelude::*;
use crate::meta::ObjectMeta;
use crate::pipeline_monitor::resources::{EnvVar, Secret};

verus! {

/// A resource-watcher CronJob as the pipeline monitor reads it.
///
/// `decoded_secrets` and `decoded_env` hold what the JSON text of the
/// `minion.ponglehub.co.uk/secrets` and `minion.ponglehub.co.uk/env`
/// annotations decodes to, or `None` where that text is absent or does not
/// decode to a list of secrets (of environment variables).
pub struct CronJob {
    pub metadata: Option<ObjectMeta>,
    pub decoded_secrets: Option<Vec<Secret>>,
    pub decoded_env: Option<Vec<EnvVar>>,
}

/// The annotation that names a watcher's pipeline.
pub open spec fn pipeline_key() -> Seq<char> {
    "minion.ponglehub.co.uk/pipeline"@
}

/// The annotation that names a watcher's resource.
pub open spec fn resource_key() -> Seq<char> {
    "minion.ponglehub.co.uk/resource"@
}

/// The annotation that names a watcher's image.
pub open spec fn image_key() -> Seq<char> {
    "minion.ponglehub.co.uk/image"@
}

/// The annotation that holds a watcher's secrets as JSON.
pub open spec fn secrets_key() -> Seq<char> {
    "minion.ponglehub.co.uk/secrets"@
}

/// The annotation that holds a watcher's environment as JSON.
pub open spec fn env_key() -> Seq<char> {
    "minion.ponglehub.co.uk/env"@
}

/// The annotation that marks a CronJob as a resource watcher.
pub open spec fn minion_type_key() -> Seq<char> {
    "minion.ponglehub.co.uk/minion-type"@
}

pub fn pipeline_key_string() -> (r: String)
    ensures
        r@ == pipeline_key(),
{
    String::from_str("minion.ponglehub.co.uk/pipeline")
}

pub fn resource_key_string() -> (r: String)
    ensures
        r@ == resource_key(),
{
    String::from_str("minion.ponglehub.co.uk/resource")
}

pub fn image_key_string() -> (r: String)
    ensures
        r@ == image_key(),
{
    String::from_str("minion.ponglehub.co.uk/image")
}

pub fn secrets_key_string() -> (r: String)
    ensures
        r@ == secrets_key(),
{
    String::from_str("minion.ponglehub.co.uk/secrets")
}

pub fn env_key_string() -> (r: String)
    ensures
        r@ == env_key(),
{
    String::from_str("minion.ponglehub.co.uk/env")
}

pub fn minion_type_key_string() -> (r: String)
    ensures
        r@ == minion_type_key(),
{
    String::from_str("minion.ponglehub.co.uk/minion-type")
}

} // verus!
