use vstd::prelude::*;
use crate::meta::{opt_view, ObjectMeta};
use crate::version_sidecar::state::{Version, VersionSpec};

verus! {

/// A recorded version, with the namespace it is recorded in.
pub struct VersionData {
    pub namespace: String,
    pub resource: String,
    pub pipeline: String,
    pub version: String,
}

pub struct VersionDataView {
    pub namespace: Seq<char>,
    pub resource: Seq<char>,
    pub pipeline: Seq<char>,
    pub version: Seq<char>,
}

impl View for VersionData {
    type V = VersionDataView;

    open spec fn view(&self) -> VersionDataView {
        VersionDataView {
            namespace: self.namespace@,
            resource: self.resource@,
            pipeline: self.pipeline@,
            version: self.version@,
        }
    }
}

pub open spec fn versions_view(vs: Seq<VersionData>) -> Seq<VersionDataView> {
    vs.map_values(|v: VersionData| v@)
}

/// The name of the `Version` that records `version` of `resource` for `pipeline`.
pub open spec fn version_name(resource: Seq<char>, pipeline: Seq<char>, version: Seq<char>) -> Seq<char> {
    resource + seq!['-'] + pipeline + seq!['-'] + version
}

/// The `Version` custom resource that records `version` of `resource` for
/// `pipeline`, named `resource-pipeline-version`.
pub fn get_version_body(resource: &String, pipeline: &String, version: &String) -> (v: Version)
    ensures
        v.api_version@ == "minion.ponglehub.com/v1"@,
        v.kind@ == "Version"@,
        opt_view(v.metadata.name) == Some(version_name(resource@, pipeline@, version@)),
        v.metadata.namespace is None,
        v.metadata.annotations is None,
        v.metadata.resource_version is None,
        v.spec.resource@ == resource@,
        v.spec.pipeline@ == pipeline@,
        v.spec.version@ == version@,
{
    let name = crate::text::join_dash(&crate::text::join_dash(resource, pipeline), version);
    Version {
        api_version: String::from_str("minion.ponglehub.com/v1"),
        kind: String::from_str("Version"),
        metadata: ObjectMeta { name: Some(name), namespace: None, annotations: None, resource_version: None },
        spec: VersionSpec { resource: resource.clone(), pipeline: pipeline.clone(), version: version.clone() },
    }
}

/// The recorded versions that the listed `Version` resources stand for: those
/// without a namespace are left out.
pub open spec fn version_data_of(items: Seq<Version>) -> Seq<VersionDataView>
    decreases items.len(),
{
    if items.len() == 0 {
        seq![]
    } else {
        let rest = version_data_of(items.drop_last());
        let v = items.last();
        match v.metadata.namespace {
            Some(ns) => rest.push(
                VersionDataView {
                    namespace: ns@,
                    resource: v.spec.resource@,
                    pipeline: v.spec.pipeline@,
                    version: v.spec.version@,
                },
            ),
            None => rest,
        }
    }
}

/// The recorded versions of a listing of `Version` resources, in order;
/// a resource without a namespace is skipped.
pub fn version_data_from_items(items: Vec<Version>) -> (r: Vec<VersionData>)
    ensures
        versions_view(r@) == version_data_of(items@),
{
    let mut out: Vec<VersionData> = Vec::new();
    let n = items.len();
    let mut i: usize = 0;
    assert(versions_view(out@) =~= version_data_of(items@.take(0)));
    while i < n
        invariant
            n == items@.len(),
            i <= n,
            versions_view(out@) == version_data_of(items@.take(i as int)),
        decreases n - i,
    {
        let item = &items[i];
        assert(items@.take(i + 1).drop_last() =~= items@.take(i as int));
        assert(items@.take(i + 1).last() == *item);
        match &item.metadata.namespace {
            Some(ns) => {
                let d = VersionData {
                    namespace: ns.clone(),
                    resource: item.spec.resource.clone(),
                    pipeline: item.spec.pipeline.clone(),
                    version: item.spec.version.clone(),
                };
                proof {
                    assert(versions_view(out@.push(d)) =~= versions_view(out@).push(d@));
                }
                out.push(d);
            },
            None => {},
        }
        i = i + 1;
    }
    assert(items@.take(n as int) =~= items@);
    out
}

} // verus!
