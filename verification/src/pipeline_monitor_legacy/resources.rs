use vstd::prelude::*;
use crate::meta::{ObjectMeta, ObjectMetaView};
use crate::text::strings_view;

verus! {

/// The spec of a `Resource` custom resource in its first form.
pub struct ResourceSpec {
    pub image: String,
    pub additional_vars: Vec<String>,
}

/// A `Resource` custom resource: its metadata and spec.
pub struct Resource {
    pub metadata: ObjectMeta,
    pub spec: ResourceSpec,
}

pub struct ResourceSpecView {
    pub image: Seq<char>,
    pub additional_vars: Seq<Seq<char>>,
}

pub struct ResourceView {
    pub metadata: ObjectMetaView,
    pub spec: ResourceSpecView,
}

impl View for ResourceSpec {
    type V = ResourceSpecView;

    open spec fn view(&self) -> ResourceSpecView {
        ResourceSpecView { image: self.image@, additional_vars: strings_view(self.additional_vars@) }
    }
}

impl View for Resource {
    type V = ResourceView;

    open spec fn view(&self) -> ResourceView {
        ResourceView { metadata: self.metadata@, spec: self.spec@ }
    }
}

impl Clone for ResourceSpec {
    fn clone(&self) -> (r: Self)
        ensures
            r@ == self@,
    {
        let vars = self.additional_vars.clone();
        assert(strings_view(vars@) =~= strings_view(self.additional_vars@));
        ResourceSpec { image: self.image.clone(), additional_vars: vars }
    }
}

impl Clone for Resource {
    fn clone(&self) -> (r: Self)
        ensures
            r@ == self@,
    {
        Resource { metadata: self.metadata.clone(), spec: self.spec.clone() }
    }
}

} // verus!
