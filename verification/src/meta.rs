use vstd::prelude::*;

verus! {

/// A key and its value: an annotation or a label of a Kubernetes object.
pub struct Annotation {
    pub key: String,
    pub value: String,
}

/// The part of a Kubernetes object's metadata that the operators read.
pub struct ObjectMeta {
    pub name: Option<String>,
    pub namespace: Option<String>,
    /// The annotations in key order, as the API server's map holds them, so
    /// that `keys_distinct` holds of them.
    pub annotations: Option<Vec<Annotation>>,
    pub resource_version: Option<String>,
}

pub struct AnnotationView {
    pub key: Seq<char>,
    pub value: Seq<char>,
}

pub struct ObjectMetaView {
    pub name: Option<Seq<char>>,
    pub namespace: Option<Seq<char>>,
    pub annotations: Option<Seq<AnnotationView>>,
    pub resource_version: Option<Seq<char>>,
}

impl View for Annotation {
    type V = AnnotationView;

    open spec fn view(&self) -> AnnotationView {
        AnnotationView { key: self.key@, value: self.value@ }
    }
}

pub open spec fn annotations_view(anns: Seq<Annotation>) -> Seq<AnnotationView> {
    anns.map_values(|a: Annotation| a@)
}

impl View for ObjectMeta {
    type V = ObjectMetaView;

    open spec fn view(&self) -> ObjectMetaView {
        ObjectMetaView {
            name: opt_view(self.name),
            namespace: opt_view(self.namespace),
            annotations: match self.annotations {
                Some(a) => Some(annotations_view(a@)),
                None => None,
            },
            resource_version: opt_view(self.resource_version),
        }
    }
}

impl Clone for Annotation {
    fn clone(&self) -> (r: Self)
        ensures
            r@ == self@,
    {
        Annotation { key: self.key.clone(), value: self.value.clone() }
    }
}

/// A copy of a list of annotations.
pub fn clone_annotations(anns: &Vec<Annotation>) -> (r: Vec<Annotation>)
    ensures
        annotations_view(r@) == annotations_view(anns@),
{
    let r = anns.clone();
    assert(annotations_view(r@) =~= annotations_view(anns@));
    r
}

impl Clone for ObjectMeta {
    fn clone(&self) -> (r: Self)
        ensures
            r@ == self@,
    {
        ObjectMeta {
            name: copy_opt_string(&self.name),
            namespace: copy_opt_string(&self.namespace),
            annotations: match &self.annotations {
                Some(a) => Some(clone_annotations(a)),
                None => None,
            },
            resource_version: copy_opt_string(&self.resource_version),
        }
    }
}

/// The view of an optional string.
pub open spec fn opt_view(o: Option<String>) -> Option<Seq<char>> {
    match o {
        Some(s) => Some(s@),
        None => None,
    }
}

/// The value stored under `key`: that of the first annotation with this key.
pub open spec fn lookup(anns: Seq<Annotation>, key: Seq<char>) -> Option<Seq<char>>
    decreases anns.len(),
{
    if anns.len() == 0 {
        None
    } else if anns[0].key@ == key {
        Some(anns[0].value@)
    } else {
        lookup(anns.drop_first(), key)
    }
}

/// Looks up the value stored under `key`.
pub fn get_annotation(anns: &Vec<Annotation>, key: &String) -> (r: Option<String>)
    ensures
        opt_view(r) == lookup(anns@, key@),
{
    let n = anns.len();
    let mut i: usize = 0;
    assert(anns@.subrange(0, n as int) =~= anns@);
    while i < n
        invariant
            n == anns@.len(),
            i <= n,
            lookup(anns@, key@) == lookup(anns@.subrange(i as int, n as int), key@),
        decreases n - i,
    {
        let ghost rest = anns@.subrange(i as int, n as int);
        assert(rest.drop_first() =~= anns@.subrange(i + 1, n as int));
        if anns[i].key == *key {
            return Some(anns[i].value.clone());
        }
        i = i + 1;
    }
    None
}

/// A copy of an optional string.
pub fn copy_opt_string(o: &Option<String>) -> (r: Option<String>)
    ensures
        opt_view(r) == opt_view(*o),
{
    match o {
        Some(s) => Some(s.clone()),
        None => None,
    }
}

/// No key occurs twice among the annotations, as in the API server's map.
pub open spec fn keys_distinct(anns: Seq<Annotation>) -> bool {
    forall|i: int, j: int| 0 <= i < j < anns.len() ==> (#[trigger] anns[i]).key@ != (#[trigger] anns[j]).key@
}

/// Where no key occurs twice, looking a key up gives the value stored with it,
/// wherever in the list it stands: the lookup is that of a map.
pub proof fn law_lookup_is_map_lookup(anns: Seq<Annotation>, i: int)
    requires
        keys_distinct(anns),
        0 <= i < anns.len(),
    ensures
        lookup(anns, anns[i].key@) == Some(anns[i].value@),
    decreases anns.len(),
{
    if i > 0 {
        let rest = anns.drop_first();
        assert(rest[i - 1] == anns[i]);
        assert(anns[0].key@ != anns[i].key@) by {
            assert(anns[0] == anns[0]);
        }
        assert(keys_distinct(rest)) by {
            assert forall|a: int, b: int| 0 <= a < b < rest.len() implies (#[trigger] rest[a]).key@ != (#[trigger] rest[b]).key@ by {
                assert(rest[a] == anns[a + 1] && rest[b] == anns[b + 1]);
            }
        }
        law_lookup_is_map_lookup(rest, i - 1);
    }
}

} // verus!
