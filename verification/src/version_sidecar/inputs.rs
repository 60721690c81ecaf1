use vstd::prelude::*;
use crate::text::{trim, trimmed};
use crate::version_sidecar::api::{version_data_of, VersionData, VersionDataView};
use crate::version_sidecar::state::Version;

verus! {

/// Which resource of which pipeline, in which namespace, the sidecar records a version for.
pub struct VersionInputs {
    pub pipeline: String,
    pub resource: String,
    pub namespace: String,
}

/// A required environment variable that is not set.
pub enum InputError {
    MissingNamespace,
    MissingResource,
    MissingPipeline,
}

/// Why the version file gives no version.
pub enum VersionFileError {
    /// The file holds nothing but white space.
    Empty,
}

/// The message of an input error.
pub open spec fn input_error_message(e: InputError) -> Seq<char> {
    match e {
        InputError::MissingNamespace => "Missing required environment variable NAMESPACE"@,
        InputError::MissingResource => "Missing required environment variable RESOURCE"@,
        InputError::MissingPipeline => "Missing required environment variable PIPELINE"@,
    }
}

impl InputError {
    /// The error's message, which names the missing variable.
    pub fn message(&self) -> (s: String)
        ensures
            s@ == input_error_message(*self),
    {
        match self {
            InputError::MissingNamespace => String::from_str("Missing required environment variable NAMESPACE"),
            InputError::MissingResource => String::from_str("Missing required environment variable RESOURCE"),
            InputError::MissingPipeline => String::from_str("Missing required environment variable PIPELINE"),
        }
    }
}

impl VersionFileError {
    /// The error's message.
    pub fn message(&self) -> (s: String)
        ensures
            s@ == "Version number must be at least one character long"@,
    {
        String::from_str("Version number must be at least one character long")
    }
}

/// The inputs from the values of the `NAMESPACE`, `RESOURCE` and `PIPELINE`
/// environment variables (`None` where one is not set); the first variable
/// missing, in that order, is the error.
pub fn inputs_from_env(namespace: Option<String>, resource: Option<String>, pipeline: Option<String>) -> (r: Result<VersionInputs, InputError>)
    ensures
        namespace is None ==> r matches Err(InputError::MissingNamespace),
        namespace is Some && resource is None ==> r matches Err(InputError::MissingResource),
        namespace is Some && resource is Some && pipeline is None ==> r matches Err(InputError::MissingPipeline),
        namespace is Some && resource is Some && pipeline is Some ==> (r matches Ok(i) && i.namespace@ == namespace->0@ && i.resource@ == resource->0@ && i.pipeline@ == pipeline->0@),
{
    let namespace = match namespace {
        Some(n) => n,
        None => {
            return Err(InputError::MissingNamespace);
        },
    };
    let resource = match resource {
        Some(r) => r,
        None => {
            return Err(InputError::MissingResource);
        },
    };
    let pipeline = match pipeline {
        Some(p) => p,
        None => {
            return Err(InputError::MissingPipeline);
        },
    };
    Ok(VersionInputs { namespace, resource, pipeline })
}

/// The version that a version file holds: its text without leading and
/// trailing white space, which must not be empty.
pub fn version_from_contents(contents: &str) -> (r: Result<String, VersionFileError>)
    ensures
        trimmed(contents@).len() == 0 ==> r matches Err(VersionFileError::Empty),
        trimmed(contents@).len() > 0 ==> (r matches Ok(v) && v@ == trimmed(contents@)),
{
    let t = trim(contents);
    if t.unicode_len() == 0 {
        return Err(VersionFileError::Empty);
    }
    Ok(t)
}

/// `v` records `version` for the inputs.
pub open spec fn records(v: VersionDataView, version: Seq<char>, inputs: VersionInputs) -> bool {
    v.namespace == inputs.namespace@ && v.pipeline == inputs.pipeline@ && v.resource == inputs.resource@ && v.version == version
}

/// Whether `version` is recorded already for the inputs' resource, pipeline and namespace.
pub fn version_exists(versions: Vec<VersionData>, version: &str, inputs: &VersionInputs) -> (r: bool)
    ensures
        r == (exists|i: int| 0 <= i < versions@.len() && records(#[trigger] versions@[i]@, version@, *inputs)),
        r == (exists|i: int| 0 <= i < versions@.len() && {
            let v = #[trigger] versions@[i];
            &&& v.version@ == version@
            &&& v.namespace@ == inputs.namespace@
            &&& v.resource@ == inputs.resource@
            &&& v.pipeline@ == inputs.pipeline@
        }),
{
    let wanted = String::from_str(version);
    let n = versions.len();
    let mut i: usize = 0;
    while i < n
        invariant
            n == versions@.len(),
            i <= n,
            wanted@ == version@,
            forall|j: int| 0 <= j < i ==> !records(#[trigger] versions@[j]@, version@, *inputs),
            forall|j: int| 0 <= j < i ==> !{
                let v = #[trigger] versions@[j];
                &&& v.version@ == version@
                &&& v.namespace@ == inputs.namespace@
                &&& v.resource@ == inputs.resource@
                &&& v.pipeline@ == inputs.pipeline@
            },
        decreases n - i,
    {
        let v = &versions[i];
        let matches = v.namespace == inputs.namespace && v.pipeline == inputs.pipeline && v.resource == inputs.resource
            && v.version == wanted;
        assert(versions@[i as int] == *v);
        if matches {
            assert(records(versions@[i as int]@, version@, *inputs));
            return true;
        }
        i = i + 1;
    }
    false
}

proof fn lemma_listed_item_kept(items: Seq<Version>, k: int)
    requires
        0 <= k < items.len(),
        items[k].metadata.namespace is Some,
    ensures
        exists|j: int| 0 <= j < version_data_of(items).len() && #[trigger] version_data_of(items)[j] == (VersionDataView {
            namespace: items[k].metadata.namespace->0@,
            resource: items[k].spec.resource@,
            pipeline: items[k].spec.pipeline@,
            version: items[k].spec.version@,
        }),
    decreases items.len(),
{
    let all = version_data_of(items);
    if k < items.len() - 1 {
        let pre = items.drop_last();
        assert(pre[k] == items[k]);
        lemma_listed_item_kept(pre, k);
        let rest = version_data_of(pre);
        let j = choose|j: int| 0 <= j < rest.len() && #[trigger] rest[j] == (VersionDataView {
            namespace: pre[k].metadata.namespace->0@,
            resource: pre[k].spec.resource@,
            pipeline: pre[k].spec.pipeline@,
            version: pre[k].spec.version@,
        });
        assert(all[j] == rest[j]);
    } else {
        assert(all[all.len() - 1] == (VersionDataView {
            namespace: items[k].metadata.namespace->0@,
            resource: items[k].spec.resource@,
            pipeline: items[k].spec.pipeline@,
            version: items[k].spec.version@,
        }));
    }
}

/// What one run of the sidecar records, the next run finds: a listed
/// `Version` in the inputs' namespace whose spec names the inputs' resource and
/// pipeline and `version` (as the body that `get_version_body` builds does)
/// makes the listing record `version` for the inputs.
pub proof fn law_recorded_version_is_found(items: Seq<Version>, k: int, inputs: VersionInputs, version: Seq<char>)
    requires
        0 <= k < items.len(),
        items[k].metadata.namespace is Some,
        items[k].metadata.namespace->0@ == inputs.namespace@,
        items[k].spec.resource@ == inputs.resource@,
        items[k].spec.pipeline@ == inputs.pipeline@,
        items[k].spec.version@ == version,
    ensures
        exists|j: int| 0 <= j < version_data_of(items).len() && records(#[trigger] version_data_of(items)[j], version, inputs),
{
    lemma_listed_item_kept(items, k);
}

/// An entry records one version only: no entry records two different
/// versions for the same inputs, so a new version is never taken for one that
/// is recorded already.
pub proof fn law_entry_records_one_version(v: VersionDataView, a: Seq<char>, b: Seq<char>, inputs: VersionInputs)
    requires
        records(v, a, inputs),
        records(v, b, inputs),
    ensures
        a == b,
{
}

} // verus!
