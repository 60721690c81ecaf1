//! The version monitor: it reports the `Version` resources that exist and
//! each change to them.

use vstd::prelude::*;
use crate::meta::ObjectMeta;

verus! {

/// The spec of a `Version` resource as the version monitor reads it.
pub struct Version {
    pub resource: String,
    pub pipeline: String,
    pub version: String,
}

/// A `Version` resource: its metadata and spec.
pub struct KubeVersion {
    pub metadata: ObjectMeta,
    pub spec: Version,
}

/// A change to a `Version` resource that the monitor is told of.
pub enum VersionEvent {
    Added(KubeVersion),
    Modified(KubeVersion),
    Deleted(KubeVersion),
    /// Any other event of the watch.
    Other,
}

/// A version with a namespace.
pub open spec fn has_namespace(v: KubeVersion) -> bool {
    v.metadata.namespace is Some
}

/// `'namespace': pipeline -> resource:version`, the part that every report shares.
pub open spec fn described(v: KubeVersion) -> Seq<char> {
    "'"@ + v.metadata.namespace->0@ + "': "@ + v.spec.pipeline@ + " -> "@ + v.spec.resource@ + ":"@ + v.spec.version@
}

fn describe(v: &KubeVersion) -> (s: String)
    requires
        has_namespace(*v),
    ensures
        s@ == described(*v),
{
    let ns = match &v.metadata.namespace {
        Some(ns) => ns,
        None => {
            return String::new();
        },
    };
    let mut s = String::from_str("'");
    s.append(ns.as_str());
    s.append("': ");
    s.append(v.spec.pipeline.as_str());
    s.append(" -> ");
    s.append(v.spec.resource.as_str());
    s.append(":");
    s.append(v.spec.version.as_str());
    s
}

fn with_prefix(prefix: &str, v: &KubeVersion) -> (s: String)
    requires
        has_namespace(*v),
    ensures
        s@ == prefix@ + described(*v),
{
    let mut s = String::from_str(prefix);
    s.append(describe(v).as_str());
    s
}

/// The report of a version found at start-up.
pub fn found_version(v: &KubeVersion) -> (s: String)
    requires
        has_namespace(*v),
    ensures
        s@ == "Found Version in namespace "@ + described(*v),
{
    with_prefix("Found Version in namespace ", v)
}

/// The report of an added version.
pub fn load_version(v: &KubeVersion) -> (s: String)
    requires
        has_namespace(*v),
    ensures
        s@ == "Added a version to namespace "@ + described(*v),
{
    with_prefix("Added a version to namespace ", v)
}

/// The report of an updated version.
pub fn updated_version(v: &KubeVersion) -> (s: String)
    requires
        has_namespace(*v),
    ensures
        s@ == "Updated a version in namespace "@ + described(*v),
{
    with_prefix("Updated a version in namespace ", v)
}

/// The report of a deleted version.
pub fn removed_version(v: &KubeVersion) -> (s: String)
    requires
        has_namespace(*v),
    ensures
        s@ == "Deleted a version from namespace "@ + described(*v),
{
    with_prefix("Deleted a version from namespace ", v)
}

/// The event carries a version with a namespace, or is no change to a version.
pub open spec fn reportable(e: VersionEvent) -> bool {
    match e {
        VersionEvent::Added(v) => has_namespace(v),
        VersionEvent::Modified(v) => has_namespace(v),
        VersionEvent::Deleted(v) => has_namespace(v),
        VersionEvent::Other => true,
    }
}

/// The report of an event: an addition, a change or a deletion is reported
/// with its version; anything else as "another event".
pub fn handle(event: &VersionEvent) -> (s: String)
    requires
        reportable(*event),
    ensures
        match *event {
            VersionEvent::Added(v) => s@ == "Added a version to namespace "@ + described(v),
            VersionEvent::Modified(v) => s@ == "Updated a version in namespace "@ + described(v),
            VersionEvent::Deleted(v) => s@ == "Deleted a version from namespace "@ + described(v),
            VersionEvent::Other => s@ == "another event"@,
        },
{
    match event {
        VersionEvent::Added(v) => load_version(v),
        VersionEvent::Modified(v) => updated_version(v),
        VersionEvent::Deleted(v) => removed_version(v),
        VersionEvent::Other => String::from_str("another event"),
    }
}

} // verus!
