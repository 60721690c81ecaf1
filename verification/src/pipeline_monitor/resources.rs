use vstd::prelude::*;
use crate::meta::ObjectMeta;

verus! {

/// One key of a Kubernetes secret and the file it is mounted as.
pub struct SecretKey {
    pub key: String,
    pub path: String,
}

/// A secret that a resource watcher mounts.
pub struct Secret {
    pub name: String,
    pub mount_path: String,
    pub keys: Vec<SecretKey>,
}

/// An environment variable of a resource watcher.
pub struct EnvVar {
    pub name: String,
    pub value: String,
}

/// The spec of a `Resource` custom resource (group `minion.ponglehub.com`, version `v1`).
pub struct ResourceSpec {
    pub image: String,
    pub secrets: Vec<Secret>,
    pub env: Vec<EnvVar>,
}

/// A `Resource` custom resource: its metadata and spec.
pub struct Resource {
    pub metadata: ObjectMeta,
    pub spec: ResourceSpec,
}

pub struct SecretKeyView {
    pub key: Seq<char>,
    pub path: Seq<char>,
}

pub struct SecretView {
    pub name: Seq<char>,
    pub mount_path: Seq<char>,
    pub keys: Seq<SecretKeyView>,
}

pub struct EnvVarView {
    pub name: Seq<char>,
    pub value: Seq<char>,
}

pub struct ResourceSpecView {
    pub image: Seq<char>,
    pub secrets: Seq<SecretView>,
    pub env: Seq<EnvVarView>,
}

pub struct ResourceView {
    pub metadata: crate::meta::ObjectMetaView,
    pub spec: ResourceSpecView,
}

impl View for ResourceSpec {
    type V = ResourceSpecView;

    open spec fn view(&self) -> ResourceSpecView {
        ResourceSpecView { image: self.image@, secrets: secrets_view(self.secrets@), env: envs_view(self.env@) }
    }
}

impl View for Resource {
    type V = ResourceView;

    open spec fn view(&self) -> ResourceView {
        ResourceView { metadata: self.metadata@, spec: self.spec@ }
    }
}

impl View for SecretKey {
    type V = SecretKeyView;

    open spec fn view(&self) -> SecretKeyView {
        SecretKeyView { key: self.key@, path: self.path@ }
    }
}

pub open spec fn keys_view(ks: Seq<SecretKey>) -> Seq<SecretKeyView> {
    ks.map_values(|k: SecretKey| k@)
}

impl View for Secret {
    type V = SecretView;

    open spec fn view(&self) -> SecretView {
        SecretView { name: self.name@, mount_path: self.mount_path@, keys: keys_view(self.keys@) }
    }
}

pub open spec fn secrets_view(ss: Seq<Secret>) -> Seq<SecretView> {
    ss.map_values(|s: Secret| s@)
}

impl View for EnvVar {
    type V = EnvVarView;

    open spec fn view(&self) -> EnvVarView {
        EnvVarView { name: self.name@, value: self.value@ }
    }
}

pub open spec fn envs_view(es: Seq<EnvVar>) -> Seq<EnvVarView> {
    es.map_values(|e: EnvVar| e@)
}

impl Clone for SecretKey {
    fn clone(&self) -> (r: Self)
        ensures
            r@ == self@,
    {
        SecretKey { key: self.key.clone(), path: self.path.clone() }
    }
}

impl Clone for EnvVar {
    fn clone(&self) -> (r: Self)
        ensures
            r@ == self@,
    {
        EnvVar { name: self.name.clone(), value: self.value.clone() }
    }
}

/// A copy of a list of secret keys.
pub fn clone_keys(ks: &Vec<SecretKey>) -> (r: Vec<SecretKey>)
    ensures
        keys_view(r@) == keys_view(ks@),
{
    let r = ks.clone();
    assert(keys_view(r@) =~= keys_view(ks@));
    r
}

impl Clone for Secret {
    fn clone(&self) -> (r: Self)
        ensures
            r@ == self@,
    {
        Secret { name: self.name.clone(), mount_path: self.mount_path.clone(), keys: clone_keys(&self.keys) }
    }
}

/// A copy of a list of secrets.
pub fn clone_secrets(ss: &Vec<Secret>) -> (r: Vec<Secret>)
    ensures
        secrets_view(r@) == secrets_view(ss@),
{
    let r = ss.clone();
    assert(secrets_view(r@) =~= secrets_view(ss@));
    r
}

/// A copy of a list of environment variables.
pub fn clone_envs(es: &Vec<EnvVar>) -> (r: Vec<EnvVar>)
    ensures
        envs_view(r@) == envs_view(es@),
{
    let r = es.clone();
    assert(envs_view(r@) =~= envs_view(es@));
    r
}

impl Clone for ResourceSpec {
    fn clone(&self) -> (r: Self)
        ensures
            r@ == self@,
    {
        ResourceSpec { image: self.image.clone(), secrets: clone_secrets(&self.secrets), env: clone_envs(&self.env) }
    }
}

impl Clone for Resource {
    fn clone(&self) -> (r: Self)
        ensures
            r@ == self@,
    {
        Resource { metadata: self.metadata.clone(), spec: self.spec.clone() }
    }
}

impl PartialEq for SecretKey {
    fn eq(&self, other: &Self) -> (r: bool) {
        self.key == other.key && self.path == other.path
    }
}

impl vstd::std_specs::cmp::PartialEqSpecImpl for SecretKey {
    open spec fn obeys_eq_spec() -> bool {
        true
    }

    open spec fn eq_spec(&self, other: &SecretKey) -> bool {
        self@ == other@
    }
}

impl Eq for SecretKey {

}

impl PartialEq for EnvVar {
    fn eq(&self, other: &Self) -> (r: bool) {
        self.name == other.name && self.value == other.value
    }
}

impl vstd::std_specs::cmp::PartialEqSpecImpl for EnvVar {
    open spec fn obeys_eq_spec() -> bool {
        true
    }

    open spec fn eq_spec(&self, other: &EnvVar) -> bool {
        self@ == other@
    }
}

impl Eq for EnvVar {

}

/// Whether two lists of secret keys are equal, key by key.
pub fn keys_eq(a: &Vec<SecretKey>, b: &Vec<SecretKey>) -> (r: bool)
    ensures
        r == (keys_view(a@) == keys_view(b@)),
{
    if a.len() != b.len() {
        assert(keys_view(a@).len() != keys_view(b@).len());
        return false;
    }
    let n = a.len();
    let mut i: usize = 0;
    while i < n
        invariant
            n == a@.len(),
            n == b@.len(),
            i <= n,
            forall|j: int| 0 <= j < i ==> a@[j]@ == b@[j]@,
        decreases n - i,
    {
        if !(a[i] == b[i]) {
            assert(keys_view(a@)[i as int] != keys_view(b@)[i as int]);
            return false;
        }
        i = i + 1;
    }
    assert(keys_view(a@) =~= keys_view(b@));
    true
}

impl PartialEq for Secret {
    fn eq(&self, other: &Self) -> (r: bool) {
        self.name == other.name && self.mount_path == other.mount_path && keys_eq(&self.keys, &other.keys)
    }
}

impl vstd::std_specs::cmp::PartialEqSpecImpl for Secret {
    open spec fn obeys_eq_spec() -> bool {
        true
    }

    open spec fn eq_spec(&self, other: &Secret) -> bool {
        self@ == other@
    }
}

impl Eq for Secret {

}

/// Whether two lists of secrets are equal, secret by secret.
pub fn secrets_eq(a: &Vec<Secret>, b: &Vec<Secret>) -> (r: bool)
    ensures
        r == (secrets_view(a@) == secrets_view(b@)),
{
    if a.len() != b.len() {
        assert(secrets_view(a@).len() != secrets_view(b@).len());
        return false;
    }
    let n = a.len();
    let mut i: usize = 0;
    while i < n
        invariant
            n == a@.len(),
            n == b@.len(),
            i <= n,
            forall|j: int| 0 <= j < i ==> a@[j]@ == b@[j]@,
        decreases n - i,
    {
        if !(a[i] == b[i]) {
            assert(secrets_view(a@)[i as int] != secrets_view(b@)[i as int]);
            return false;
        }
        i = i + 1;
    }
    assert(secrets_view(a@) =~= secrets_view(b@));
    true
}

/// Whether two lists of environment variables are equal, variable by variable.
pub fn envs_eq(a: &Vec<EnvVar>, b: &Vec<EnvVar>) -> (r: bool)
    ensures
        r == (envs_view(a@) == envs_view(b@)),
{
    if a.len() != b.len() {
        assert(envs_view(a@).len() != envs_view(b@).len());
        return false;
    }
    let n = a.len();
    let mut i: usize = 0;
    while i < n
        invariant
            n == a@.len(),
            n == b@.len(),
            i <= n,
            forall|j: int| 0 <= j < i ==> a@[j]@ == b@[j]@,
        decreases n - i,
    {
        if !(a[i] == b[i]) {
            assert(envs_view(a@)[i as int] != envs_view(b@)[i as int]);
            return false;
        }
        i = i + 1;
    }
    assert(envs_view(a@) =~= envs_view(b@));
    true
}

} // verus!
