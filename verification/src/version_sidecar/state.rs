use vstd::prelude::*;
use crate::meta::ObjectMeta;

verus! {

/// The spec of a `Version` custom resource (group `minion.ponglehub.com`, version `v1`).
pub struct VersionSpec {
    pub resource: String,
    pub pipeline: String,
    pub version: String,
}

/// A `Version` custom resource.
pub struct Version {
    pub api_version: String,
    pub kind: String,
    pub metadata: ObjectMeta,
    pub spec: VersionSpec,
}

pub struct VersionSpecView {
    pub resource: Seq<char>,
    pub pipeline: Seq<char>,
    pub version: Seq<char>,
}

impl View for VersionSpec {
    type V = VersionSpecView;

    open spec fn view(&self) -> VersionSpecView {
        VersionSpecView { resource: self.resource@, pipeline: self.pipeline@, version: self.version@ }
    }
}

/// How a version is shown: `resource - version (pipeline)`.
pub open spec fn version_display(v: VersionSpecView) -> Seq<char> {
    v.resource + " - "@ + v.version + " ("@ + v.pipeline + ")"@
}

impl VersionSpec {
    /// The version as it is shown: `resource - version (pipeline)`.
    pub fn to_display_string(&self) -> (s: String)
        ensures
            s@ == version_display(self@),
    {
        let mut s = self.resource.clone();
        s.append(" - ");
        s.append(self.version.as_str());
        s.append(" (");
        s.append(self.pipeline.as_str());
        s.append(")");
        s
    }
}

impl PartialEq for VersionSpec {
    fn eq(&self, other: &Self) -> (r: bool) {
        self.resource == other.resource && self.pipeline == other.pipeline && self.version == other.version
    }
}

impl vstd::std_specs::cmp::PartialEqSpecImpl for VersionSpec {
    open spec fn obeys_eq_spec() -> bool {
        true
    }

    open spec fn eq_spec(&self, other: &VersionSpec) -> bool {
        self@ == other@
    }
}

impl Eq for VersionSpec {

}

} // verus!
