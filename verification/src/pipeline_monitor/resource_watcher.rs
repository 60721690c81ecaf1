use vstd::prelude::*;
use crate::meta::{annotations_view, opt_view, Annotation, AnnotationView};
use crate::text::strings_view;
use crate::pipeline_monitor::cron::{
    env_key, env_key_string, image_key, image_key_string, minion_type_key, minion_type_key_string,
    pipeline_key, pipeline_key_string, resource_key, resource_key_string, secrets_key,
    secrets_key_string,
};
use crate::pipeline_monitor::operations::{ResourceData, ResourceDataView};
use crate::pipeline_monitor::resources::{
    clone_envs, clone_secrets, envs_view, keys_view, secrets_view, EnvVar, EnvVarView, Secret,
    SecretKey, SecretKeyView, SecretView,
};

verus! {

/// A key of a secret projected into a file of a secret volume.
pub struct SecretItem {
    pub key: String,
    pub path: String,
}

/// The secret a volume is made from.
pub struct SecretVolumeSource {
    pub secret_name: String,
    pub items: Vec<SecretItem>,
}

/// A volume of a resource watcher's pod.
pub struct Volume {
    pub name: String,
    pub secret: SecretVolumeSource,
}

/// Where a volume is mounted in a resource watcher's container.
pub struct VolumeMount {
    pub name: String,
    pub mount_path: String,
    pub read_only: bool,
}

/// The container of a resource watcher.
pub struct Container {
    pub name: String,
    pub image: String,
    pub command: Vec<String>,
    pub env: Vec<EnvVar>,
    pub volume_mounts: Vec<VolumeMount>,
}

/// The manifest of a resource-watcher CronJob.
pub struct CronJobManifest {
    pub api_version: String,
    pub kind: String,
    pub name: String,
    pub resource_version: Option<String>,
    pub labels: Vec<Annotation>,
    pub annotations: Vec<Annotation>,
    pub schedule: String,
    pub concurrency_policy: Option<String>,
    pub pod_labels: Vec<Annotation>,
    pub containers: Vec<Container>,
    pub volumes: Vec<Volume>,
    pub restart_policy: String,
}

/// What a resource-watcher manifest is built from. `env_json` and
/// `secrets_json` are the JSON texts of `env` and `secrets`, which the
/// manifest carries as annotations.
pub struct ResourceWatcherParams {
    pub name: String,
    pub image: String,
    pub pipeline: String,
    pub resource: String,
    pub env: Vec<EnvVar>,
    pub secrets: Vec<Secret>,
    pub volumes: Vec<Volume>,
    pub volume_mounts: Vec<VolumeMount>,
    pub resource_version: String,
    pub env_json: String,
    pub secrets_json: String,
}

pub struct SecretItemView {
    pub key: Seq<char>,
    pub path: Seq<char>,
}

pub struct VolumeView {
    pub name: Seq<char>,
    pub secret_name: Seq<char>,
    pub items: Seq<SecretItemView>,
}

pub struct VolumeMountView {
    pub name: Seq<char>,
    pub mount_path: Seq<char>,
    pub read_only: bool,
}

pub struct ContainerView {
    pub name: Seq<char>,
    pub image: Seq<char>,
    pub command: Seq<Seq<char>>,
    pub env: Seq<EnvVarView>,
    pub volume_mounts: Seq<VolumeMountView>,
}

pub struct CronJobManifestView {
    pub api_version: Seq<char>,
    pub kind: Seq<char>,
    pub name: Seq<char>,
    pub resource_version: Option<Seq<char>>,
    pub labels: Seq<AnnotationView>,
    pub annotations: Seq<AnnotationView>,
    pub schedule: Seq<char>,
    pub concurrency_policy: Option<Seq<char>>,
    pub pod_labels: Seq<AnnotationView>,
    pub containers: Seq<ContainerView>,
    pub volumes: Seq<VolumeView>,
    pub restart_policy: Seq<char>,
}

pub struct ResourceWatcherParamsView {
    pub name: Seq<char>,
    pub image: Seq<char>,
    pub pipeline: Seq<char>,
    pub resource: Seq<char>,
    pub env: Seq<EnvVarView>,
    pub secrets: Seq<SecretView>,
    pub volumes: Seq<VolumeView>,
    pub volume_mounts: Seq<VolumeMountView>,
    pub resource_version: Seq<char>,
    pub env_json: Seq<char>,
    pub secrets_json: Seq<char>,
}

impl View for SecretItem {
    type V = SecretItemView;

    open spec fn view(&self) -> SecretItemView {
        SecretItemView { key: self.key@, path: self.path@ }
    }
}

pub open spec fn items_view(s: Seq<SecretItem>) -> Seq<SecretItemView> {
    s.map_values(|i: SecretItem| i@)
}

impl View for Volume {
    type V = VolumeView;

    open spec fn view(&self) -> VolumeView {
        VolumeView { name: self.name@, secret_name: self.secret.secret_name@, items: items_view(self.secret.items@) }
    }
}

pub open spec fn volumes_view(s: Seq<Volume>) -> Seq<VolumeView> {
    s.map_values(|v: Volume| v@)
}

impl View for VolumeMount {
    type V = VolumeMountView;

    open spec fn view(&self) -> VolumeMountView {
        VolumeMountView { name: self.name@, mount_path: self.mount_path@, read_only: self.read_only }
    }
}

pub open spec fn mounts_view(s: Seq<VolumeMount>) -> Seq<VolumeMountView> {
    s.map_values(|m: VolumeMount| m@)
}

impl View for Container {
    type V = ContainerView;

    open spec fn view(&self) -> ContainerView {
        ContainerView {
            name: self.name@,
            image: self.image@,
            command: strings_view(self.command@),
            env: envs_view(self.env@),
            volume_mounts: mounts_view(self.volume_mounts@),
        }
    }
}

pub open spec fn containers_view(s: Seq<Container>) -> Seq<ContainerView> {
    s.map_values(|c: Container| c@)
}

impl View for CronJobManifest {
    type V = CronJobManifestView;

    open spec fn view(&self) -> CronJobManifestView {
        CronJobManifestView {
            api_version: self.api_version@,
            kind: self.kind@,
            name: self.name@,
            resource_version: opt_view(self.resource_version),
            labels: annotations_view(self.labels@),
            annotations: annotations_view(self.annotations@),
            schedule: self.schedule@,
            concurrency_policy: opt_view(self.concurrency_policy),
            pod_labels: annotations_view(self.pod_labels@),
            containers: containers_view(self.containers@),
            volumes: volumes_view(self.volumes@),
            restart_policy: self.restart_policy@,
        }
    }
}

impl View for ResourceWatcherParams {
    type V = ResourceWatcherParamsView;

    open spec fn view(&self) -> ResourceWatcherParamsView {
        ResourceWatcherParamsView {
            name: self.name@,
            image: self.image@,
            pipeline: self.pipeline@,
            resource: self.resource@,
            env: envs_view(self.env@),
            secrets: secrets_view(self.secrets@),
            volumes: volumes_view(self.volumes@),
            volume_mounts: mounts_view(self.volume_mounts@),
            resource_version: self.resource_version@,
            env_json: self.env_json@,
            secrets_json: self.secrets_json@,
        }
    }
}

/// The file that a key of a secret is projected to.
pub open spec fn item_of(k: SecretKeyView) -> SecretItemView {
    SecretItemView { key: k.key, path: k.path }
}

pub open spec fn items_for(ks: Seq<SecretKeyView>) -> Seq<SecretItemView> {
    ks.map_values(|k: SecretKeyView| item_of(k))
}

/// The volume of a secret: named after the secret, holding each of its keys.
pub open spec fn volume_of(s: SecretView) -> VolumeView {
    VolumeView { name: s.name, secret_name: s.name, items: items_for(s.keys) }
}

pub open spec fn volumes_for(ss: Seq<SecretView>) -> Seq<VolumeView> {
    ss.map_values(|s: SecretView| volume_of(s))
}

/// The read-only mount of a secret's volume at the secret's mount path.
pub open spec fn mount_of(s: SecretView) -> VolumeMountView {
    VolumeMountView { name: s.name, mount_path: s.mount_path, read_only: true }
}

pub open spec fn mounts_for(ss: Seq<SecretView>) -> Seq<VolumeMountView> {
    ss.map_values(|s: SecretView| mount_of(s))
}

pub open spec fn kv(key: Seq<char>, value: Seq<char>) -> AnnotationView {
    AnnotationView { key, value }
}

/// The manifest of the CronJob that runs a resource watcher.
pub open spec fn resource_watcher_body(p: ResourceWatcherParamsView) -> CronJobManifestView {
    CronJobManifestView {
        api_version: "batch/v1beta1"@,
        kind: "CronJob"@,
        name: p.name,
        resource_version: Some(p.resource_version),
        labels: seq![
            kv("pipeline"@, p.pipeline),
            kv("resource"@, p.resource),
            kv("minion-type"@, "resource-watcher"@),
        ],
        annotations: seq![
            kv(pipeline_key(), p.pipeline),
            kv(resource_key(), p.resource),
            kv(image_key(), p.image),
            kv(minion_type_key(), "resource-watcher"@),
            kv(env_key(), p.env_json),
            kv(secrets_key(), p.secrets_json),
        ],
        schedule: "* * * * *"@,
        concurrency_policy: Some("Forbid"@),
        pod_labels: seq![kv("app"@, p.name)],
        containers: seq![
            ContainerView {
                name: p.name,
                image: p.image,
                command: seq!["./version"@],
                env: p.env,
                volume_mounts: p.volume_mounts,
            },
        ],
        volumes: p.volumes,
        restart_policy: "Never"@,
    }
}

/// The read-only mounts of the secrets' volumes, one per secret, in order.
pub fn make_volume_mounts(secrets: &Vec<Secret>) -> (r: Vec<VolumeMount>)
    ensures
        mounts_view(r@) == mounts_for(secrets_view(secrets@)),
{
    let mut out: Vec<VolumeMount> = Vec::new();
    let n = secrets.len();
    let mut i: usize = 0;
    while i < n
        invariant
            n == secrets@.len(),
            i <= n,
            out@.len() == i,
            forall|k: int| 0 <= k < i ==> (#[trigger] out@[k])@ == mount_of(secrets@[k]@),
        decreases n - i,
    {
        let s = &secrets[i];
        let m = VolumeMount { name: s.name.clone(), mount_path: s.mount_path.clone(), read_only: true };
        out.push(m);
        i = i + 1;
    }
    assert(mounts_view(out@) =~= mounts_for(secrets_view(secrets@)));
    out
}

fn make_items(keys: &Vec<SecretKey>) -> (r: Vec<SecretItem>)
    ensures
        items_view(r@) == items_for(keys_view(keys@)),
{
    let mut out: Vec<SecretItem> = Vec::new();
    let n = keys.len();
    let mut i: usize = 0;
    while i < n
        invariant
            n == keys@.len(),
            i <= n,
            out@.len() == i,
            forall|k: int| 0 <= k < i ==> (#[trigger] out@[k])@ == item_of(keys@[k]@),
        decreases n - i,
    {
        let k = &keys[i];
        let item = SecretItem { key: k.key.clone(), path: k.path.clone() };
        out.push(item);
        i = i + 1;
    }
    assert(items_view(out@) =~= items_for(keys_view(keys@)));
    out
}

/// The secret volumes, one per secret, in order: each named after its secret
/// and projecting each of its keys to its path.
pub fn make_volumes(secrets: &Vec<Secret>) -> (r: Vec<Volume>)
    ensures
        volumes_view(r@) == volumes_for(secrets_view(secrets@)),
{
    let mut out: Vec<Volume> = Vec::new();
    let n = secrets.len();
    let mut i: usize = 0;
    while i < n
        invariant
            n == secrets@.len(),
            i <= n,
            out@.len() == i,
            forall|k: int| 0 <= k < i ==> (#[trigger] out@[k])@ == volume_of(secrets@[k]@),
        decreases n - i,
    {
        let s = &secrets[i];
        let v = Volume {
            name: s.name.clone(),
            secret: SecretVolumeSource { secret_name: s.name.clone(), items: make_items(&s.keys) },
        };
        out.push(v);
        i = i + 1;
    }
    assert(volumes_view(out@) =~= volumes_for(secrets_view(secrets@)));
    out
}

fn clone_volumes(vs: &Vec<Volume>) -> (r: Vec<Volume>)
    ensures
        volumes_view(r@) == volumes_view(vs@),
{
    let mut out: Vec<Volume> = Vec::new();
    let n = vs.len();
    let mut i: usize = 0;
    while i < n
        invariant
            n == vs@.len(),
            i <= n,
            out@.len() == i,
            forall|k: int| 0 <= k < i ==> (#[trigger] out@[k])@ == vs@[k]@,
        decreases n - i,
    {
        let v = &vs[i];
        let mut items: Vec<SecretItem> = Vec::new();
        let m = v.secret.items.len();
        let mut j: usize = 0;
        while j < m
            invariant
                m == v.secret.items@.len(),
                j <= m,
                items@.len() == j,
                forall|k: int| 0 <= k < j ==> (#[trigger] items@[k])@ == v.secret.items@[k]@,
            decreases m - j,
        {
            let it = &v.secret.items[j];
            let c = SecretItem { key: it.key.clone(), path: it.path.clone() };
            items.push(c);
            j = j + 1;
        }
        assert(items_view(items@) =~= items_view(v.secret.items@));
        let copy = Volume {
            name: v.name.clone(),
            secret: SecretVolumeSource { secret_name: v.secret.secret_name.clone(), items },
        };
        out.push(copy);
        i = i + 1;
    }
    assert(volumes_view(out@) =~= volumes_view(vs@));
    out
}

fn clone_mounts(ms: &Vec<VolumeMount>) -> (r: Vec<VolumeMount>)
    ensures
        mounts_view(r@) == mounts_view(ms@),
{
    let mut out: Vec<VolumeMount> = Vec::new();
    let n = ms.len();
    let mut i: usize = 0;
    while i < n
        invariant
            n == ms@.len(),
            i <= n,
            out@.len() == i,
            forall|k: int| 0 <= k < i ==> (#[trigger] out@[k])@ == ms@[k]@,
        decreases n - i,
    {
        let m = &ms[i];
        let c = VolumeMount { name: m.name.clone(), mount_path: m.mount_path.clone(), read_only: m.read_only };
        out.push(c);
        i = i + 1;
    }
    assert(mounts_view(out@) =~= mounts_view(ms@));
    out
}

pub fn entry(key: String, value: &String) -> (r: Annotation)
    ensures
        r@ == kv(key@, value@),
{
    Annotation { key, value: value.clone() }
}

/// The manifest of the CronJob that runs the resource watcher described by `params`.
pub fn get_resource_watcher_body(params: &ResourceWatcherParams) -> (m: CronJobManifest)
    ensures
        m@ == resource_watcher_body(params@),
{
    let watcher = String::from_str("resource-watcher");

    let mut labels: Vec<Annotation> = Vec::new();
    labels.push(entry(String::from_str("pipeline"), &params.pipeline));
    labels.push(entry(String::from_str("resource"), &params.resource));
    labels.push(entry(String::from_str("minion-type"), &watcher));
    assert(annotations_view(labels@) =~= resource_watcher_body(params@).labels);

    let mut annotations: Vec<Annotation> = Vec::new();
    annotations.push(entry(pipeline_key_string(), &params.pipeline));
    annotations.push(entry(resource_key_string(), &params.resource));
    annotations.push(entry(image_key_string(), &params.image));
    annotations.push(entry(minion_type_key_string(), &watcher));
    annotations.push(entry(env_key_string(), &params.env_json));
    annotations.push(entry(secrets_key_string(), &params.secrets_json));
    assert(annotations_view(annotations@) =~= resource_watcher_body(params@).annotations);

    let mut pod_labels: Vec<Annotation> = Vec::new();
    pod_labels.push(entry(String::from_str("app"), &params.name));
    assert(annotations_view(pod_labels@) =~= resource_watcher_body(params@).pod_labels);

    let mut command: Vec<String> = Vec::new();
    command.push(String::from_str("./version"));
    assert(strings_view(command@) =~= seq!["./version"@]);

    let container = Container {
        name: params.name.clone(),
        image: params.image.clone(),
        command,
        env: clone_envs(&params.env),
        volume_mounts: clone_mounts(&params.volume_mounts),
    };
    let mut containers: Vec<Container> = Vec::new();
    containers.push(container);
    assert(containers_view(containers@) =~= resource_watcher_body(params@).containers);

    CronJobManifest {
        api_version: String::from_str("batch/v1beta1"),
        kind: String::from_str("CronJob"),
        name: params.name.clone(),
        resource_version: Some(params.resource_version.clone()),
        labels,
        annotations,
        schedule: String::from_str("* * * * *"),
        concurrency_policy: Some(String::from_str("Forbid")),
        pod_labels,
        containers,
        volumes: clone_volumes(&params.volumes),
        restart_policy: String::from_str("Never"),
    }
}

/// The parameters of the watcher for `data`, whose env and secrets have the
/// JSON texts `env_json` and `secrets_json`.
pub open spec fn params_for(d: ResourceDataView, env_json: Seq<char>, secrets_json: Seq<char>) -> ResourceWatcherParamsView {
    ResourceWatcherParamsView {
        name: d.name,
        image: d.image,
        pipeline: d.pipeline,
        resource: d.resource,
        env: d.env,
        secrets: d.secrets,
        volumes: volumes_for(d.secrets),
        volume_mounts: mounts_for(d.secrets),
        resource_version: d.resource_version,
        env_json,
        secrets_json,
    }
}

/// The manifest that deploying (or updating) the watcher `data` sends: its
/// volumes and mounts made from its secrets, and the JSON texts `env_json` and
/// `secrets_json` of its env and secrets in its annotations.
pub fn watcher_manifest(data: &ResourceData, env_json: &String, secrets_json: &String) -> (m: CronJobManifest)
    ensures
        m@ == resource_watcher_body(params_for(data@, env_json@, secrets_json@)),
        m@.name == data@.name,
        m@.containers.len() == 1,
        m@.containers[0].name == data@.name,
        m@.containers[0].image == data@.image,
        m@.containers[0].env == data@.env,
        m@.containers[0].volume_mounts.len() == data@.secrets.len(),
        m@.volumes.len() == data@.secrets.len(),
{
    let params = ResourceWatcherParams {
        name: data.name.clone(),
        image: data.image.clone(),
        pipeline: data.pipeline.clone(),
        resource: data.resource.clone(),
        env: clone_envs(&data.env),
        secrets: clone_secrets(&data.secrets),
        volumes: make_volumes(&data.secrets),
        volume_mounts: make_volume_mounts(&data.secrets),
        resource_version: data.resource_version.clone(),
        env_json: env_json.clone(),
        secrets_json: secrets_json.clone(),
    };
    proof {
        assert(mounts_for(data@.secrets).len() == data@.secrets.len());
        assert(volumes_for(data@.secrets).len() == data@.secrets.len());
    }
    get_resource_watcher_body(&params)
}

/// What a call that creates or replaces a watcher CronJob came back with.
pub enum ApiCallResult {
    Succeeded,
    /// The API server refused the call with this HTTP status code.
    ApiError(u16),
    /// The call failed before the API server answered.
    OtherError,
}

/// How the monitor takes the result of creating or replacing a watcher.
pub enum WatcherOutcome {
    Done,
    /// The watcher exists already (a conflict): nothing more to do.
    AlreadyExists,
    Failed,
}

/// A conflict (409) means that the watcher exists already, which is no
/// failure; any other refusal, and any other error, is one.
pub fn watcher_call_outcome(r: &ApiCallResult) -> (o: WatcherOutcome)
    ensures
        match *r {
            ApiCallResult::Succeeded => o is Done,
            ApiCallResult::ApiError(code) => if code == 409 { o is AlreadyExists } else { o is Failed },
            ApiCallResult::OtherError => o is Failed,
        },
{
    match r {
        ApiCallResult::Succeeded => WatcherOutcome::Done,
        ApiCallResult::ApiError(code) => {
            if *code != 409 {
                WatcherOutcome::Failed
            } else {
                WatcherOutcome::AlreadyExists
            }
        },
        ApiCallResult::OtherError => WatcherOutcome::Failed,
    }
}

} // verus!
