use vstd::prelude::*;
use crate::meta::opt_view;
use crate::pipeline_monitor::cron::CronJob;
use crate::pipeline_monitor_legacy::pipelines::{KubePipeline, Resource as PipelineResource};
use crate::pipeline_monitor_legacy::resources::{Resource, ResourceView};
use crate::text::{join_dash, strings_view};
use crate::meta::{annotations_view, Annotation};
use crate::pipeline_monitor::resource_watcher::{
    containers_view, entry, kv, mounts_view, volumes_view, Container,
    ContainerView, CronJobManifest, CronJobManifestView,
};
use crate::pipeline_monitor::resources::envs_view;

verus! {

/// A resource watcher that a pipeline asks for.
pub struct ResourceData {
    pub image: String,
    pub name: String,
    pub namespace: String,
    pub pipeline: String,
}

/// What the monitor has to do to the running resource watchers.
pub struct Operations {
    pub to_add: Vec<ResourceData>,
    pub to_update: Vec<ResourceData>,
    pub to_remove: Vec<ResourceData>,
}

pub struct ResourceDataView {
    pub image: Seq<char>,
    pub name: Seq<char>,
    pub namespace: Seq<char>,
    pub pipeline: Seq<char>,
}

impl View for ResourceData {
    type V = ResourceDataView;

    open spec fn view(&self) -> ResourceDataView {
        ResourceDataView { image: self.image@, name: self.name@, namespace: self.namespace@, pipeline: self.pipeline@ }
    }
}

pub open spec fn rds_view(rs: Seq<ResourceData>) -> Seq<ResourceDataView> {
    rs.map_values(|r: ResourceData| r@)
}

impl Operations {
    /// Nothing to add, update or remove.
    pub fn empty() -> (ops: Operations)
        ensures
            ops.to_add@.len() == 0,
            ops.to_update@.len() == 0,
            ops.to_remove@.len() == 0,
    {
        Operations { to_add: Vec::new(), to_update: Vec::new(), to_remove: Vec::new() }
    }
}

/// Looking `name` up in `rs` meets no nameless resource before it finds one
/// named `name` (or before the end).
pub open spec fn picks_safely(name: Seq<char>, rs: Seq<Resource>) -> bool
    decreases rs.len(),
{
    if rs.len() == 0 {
        true
    } else {
        match rs[0].metadata.name {
            None => false,
            Some(n) => n@ == name || picks_safely(name, rs.drop_first()),
        }
    }
}

/// The first resource named `name`.
pub open spec fn pick(name: Seq<char>, rs: Seq<Resource>) -> Option<ResourceView>
    decreases rs.len(),
{
    if rs.len() == 0 {
        None
    } else if opt_view(rs[0].metadata.name) == Some(name) {
        Some(rs[0]@)
    } else {
        pick(name, rs.drop_first())
    }
}

/// Why `pick_resource` found nothing.
pub struct ResourceNotFound {
    pub name: String,
}

/// The message of a failed lookup: `Failed to find resource: <name>`.
pub open spec fn not_found_message(name: Seq<char>) -> Seq<char> {
    "Failed to find resource: "@ + name
}

impl ResourceNotFound {
    /// The error's message, which names the resource looked for.
    pub fn message(&self) -> (s: String)
        ensures
            s@ == not_found_message(self.name@),
    {
        let mut s = String::from_str("Failed to find resource: ");
        s.append(self.name.as_str());
        s
    }
}

/// The first resource named `name`, or an error that names it. Every
/// resource met before it must have a name.
pub fn pick_resource(name: &String, resources: &Vec<Resource>) -> (r: Result<Resource, ResourceNotFound>)
    requires
        picks_safely(name@, resources@),
    ensures
        match r {
            Ok(d) => pick(name@, resources@) == Some(d@) && d@.metadata.name == Some(name@),
            Err(e) => pick(name@, resources@) is None && e.name@ == name@,
        },
{
    let n = resources.len();
    let mut i: usize = 0;
    assert(resources@.subrange(0, n as int) =~= resources@);
    while i < n
        invariant
            n == resources@.len(),
            i <= n,
            pick(name@, resources@) == pick(name@, resources@.subrange(i as int, n as int)),
            picks_safely(name@, resources@.subrange(i as int, n as int)),
        decreases n - i,
    {
        let ghost rest = resources@.subrange(i as int, n as int);
        assert(rest.drop_first() =~= resources@.subrange(i + 1, n as int));
        assert(rest[0] == resources@[i as int]);
        let resource_name = match &resources[i].metadata.name {
            Some(rn) => rn,
            None => {
                assert(false);
                return Err(ResourceNotFound { name: name.clone() });
            },
        };
        if *resource_name == *name {
            return Ok(resources[i].clone());
        }
        i = i + 1;
    }
    Err(ResourceNotFound { name: name.clone() })
}

/// A pipeline's triggering resources can all be looked up without meeting a nameless resource.
pub open spec fn resources_pick_safely(prs: Seq<PipelineResource>, rs: Seq<Resource>) -> bool {
    forall|j: int| 0 <= j < prs.len() && (#[trigger] prs[j]).trigger ==> picks_safely(prs[j].name@, rs)
}

/// Working out the watchers does not stop on a missing name: every pipeline
/// has a name, and in every pipeline with a namespace each triggering resource
/// can be looked up.
pub open spec fn plans_safely(ps: Seq<KubePipeline>, rs: Seq<Resource>) -> bool {
    forall|i: int| 0 <= i < ps.len() ==> {
        &&& (#[trigger] ps[i]).metadata.name is Some
        &&& ps[i].metadata.namespace is Some ==> resources_pick_safely(ps[i].spec.resources@, rs)
    }
}

/// The watchers that the resources `prs` of one pipeline ask for.
pub open spec fn desired_from(
    pipeline: Seq<char>,
    namespace: Seq<char>,
    prs: Seq<PipelineResource>,
    rs: Seq<Resource>,
) -> Seq<ResourceDataView>
    decreases prs.len(),
{
    if prs.len() == 0 {
        seq![]
    } else {
        let rest = desired_from(pipeline, namespace, prs.drop_last(), rs);
        let r = prs.last();
        if !r.trigger {
            rest
        } else {
            match pick(r.name@, rs) {
                None => rest,
                Some(d) => rest.push(
                    ResourceDataView {
                        image: d.spec.image,
                        name: pipeline + seq!['-'] + d.metadata.name->0,
                        namespace,
                        pipeline,
                    },
                ),
            }
        }
    }
}

/// The watchers that all pipelines with a namespace ask for.
pub open spec fn desired(ps: Seq<KubePipeline>, rs: Seq<Resource>) -> Seq<ResourceDataView>
    decreases ps.len(),
{
    if ps.len() == 0 {
        seq![]
    } else {
        let p = ps.last();
        desired(ps.drop_last(), rs) + match (p.metadata.name, p.metadata.namespace) {
            (Some(name), Some(ns)) => desired_from(name@, ns@, p.spec.resources@, rs),
            _ => seq![],
        }
    }
}

/// The resource watchers that the pipelines ask for: one for each triggering
/// resource, defined by a resource of that name, of each pipeline with a namespace.
pub fn desired_resources(pipelines: &Vec<KubePipeline>, resources: &Vec<Resource>) -> (r: Vec<ResourceData>)
    requires
        plans_safely(pipelines@, resources@),
    ensures
        rds_view(r@) == desired(pipelines@, resources@),
{
    let mut out: Vec<ResourceData> = Vec::new();
    let n = pipelines.len();
    let mut i: usize = 0;
    assert(rds_view(out@) =~= desired(pipelines@.take(0), resources@));
    while i < n
        invariant
            n == pipelines@.len(),
            i <= n,
            plans_safely(pipelines@, resources@),
            rds_view(out@) == desired(pipelines@.take(i as int), resources@),
        decreases n - i,
    {
        let p = &pipelines[i];
        assert(pipelines@.take(i + 1).drop_last() =~= pipelines@.take(i as int));
        assert(pipelines@[i as int] == *p);
        match (&p.metadata.name, &p.metadata.namespace) {
            (Some(pname), Some(ns)) => {
                let m = p.spec.resources.len();
                let mut j: usize = 0;
                let ghost base = rds_view(out@);
                assert(base + desired_from(pname@, ns@, p.spec.resources@.take(0), resources@) =~= base);
                while j < m
                    invariant
                        m == p.spec.resources@.len(),
                        j <= m,
                        resources_pick_safely(p.spec.resources@, resources@),
                        rds_view(out@) == base + desired_from(pname@, ns@, p.spec.resources@.take(j as int), resources@),
                    decreases m - j,
                {
                    assert(p.spec.resources@.take(j + 1).drop_last() =~= p.spec.resources@.take(j as int));
                    let ghost before = desired_from(pname@, ns@, p.spec.resources@.take(j as int), resources@);
                    let r = &p.spec.resources[j];
                    if r.trigger {
                        assert(p.spec.resources@[j as int] == *r);
                        match pick_resource(&r.name, resources) {
                            Ok(definition) => {
                                let rn = match &definition.metadata.name {
                                    Some(rn) => rn,
                                    None => {
                                        assert(false);
                                        return out;
                                    },
                                };
                                let e = ResourceData {
                                    image: definition.spec.image.clone(),
                                    name: join_dash(pname, rn),
                                    namespace: ns.clone(),
                                    pipeline: pname.clone(),
                                };
                                proof {
                                    assert(rds_view(out@.push(e)) =~= rds_view(out@).push(e@));
                                    assert(base + before.push(e@) =~= (base + before).push(e@));
                                }
                                out.push(e);
                            },
                            Err(_) => {},
                        }
                    }
                    j = j + 1;
                }
                assert(p.spec.resources@.take(m as int) =~= p.spec.resources@);
            },
            _ => {
                assert(rds_view(out@) =~= rds_view(out@) + Seq::<ResourceDataView>::empty());
            },
        }
        i = i + 1;
    }
    assert(pipelines@.take(n as int) =~= pipelines@);
    out
}

/// The operations of the first monitor: it works out the desired watchers
/// (see `desired_resources`), and asks for no change.
pub fn get_operations(pipelines: Vec<KubePipeline>, resources: Vec<Resource>, crons: Vec<CronJob>) -> (ops: Operations)
    requires
        plans_safely(pipelines@, resources@),
    ensures
        ops.to_add@.len() == 0,
        ops.to_update@.len() == 0,
        ops.to_remove@.len() == 0,
{
    Operations::empty()
}

/// The manifest of the first monitor's watcher CronJob for `name`, which runs
/// `image` for `pipeline`.
pub open spec fn legacy_watcher_body(name: Seq<char>, image: Seq<char>, pipeline: Seq<char>) -> CronJobManifestView {
    CronJobManifestView {
        api_version: "batch/v1beta1"@,
        kind: "CronJob"@,
        name,
        resource_version: None,
        labels: seq![
            kv("pipeline"@, pipeline),
            kv("resource"@, "resource-name"@),
            kv("minion-type"@, "resource-watcher"@),
        ],
        annotations: seq![],
        schedule: "* * * * *"@,
        concurrency_policy: None,
        pod_labels: seq![kv("app"@, name)],
        containers: seq![
            ContainerView {
                name,
                image,
                command: seq!["./version"@],
                env: seq![],
                volume_mounts: seq![],
            },
        ],
        volumes: seq![],
        restart_policy: "Never"@,
    }
}

/// The manifest that deploying the watcher `name` (running `image` for
/// `pipeline`) sends.
pub fn watcher_manifest(name: &String, image: &String, pipeline: &String) -> (m: CronJobManifest)
    ensures
        m@ == legacy_watcher_body(name@, image@, pipeline@),
{
    let mut labels: Vec<Annotation> = Vec::new();
    labels.push(entry(String::from_str("pipeline"), pipeline));
    labels.push(entry(String::from_str("resource"), &String::from_str("resource-name")));
    labels.push(entry(String::from_str("minion-type"), &String::from_str("resource-watcher")));
    assert(annotations_view(labels@) =~= legacy_watcher_body(name@, image@, pipeline@).labels);

    let mut pod_labels: Vec<Annotation> = Vec::new();
    pod_labels.push(entry(String::from_str("app"), name));
    assert(annotations_view(pod_labels@) =~= legacy_watcher_body(name@, image@, pipeline@).pod_labels);

    let mut command: Vec<String> = Vec::new();
    command.push(String::from_str("./version"));
    let env = Vec::new();
    let volume_mounts = Vec::new();
    let container = Container { name: name.clone(), image: image.clone(), command, env, volume_mounts };
    assert(strings_view(container.command@) =~= seq!["./version"@]);
    assert(envs_view(container.env@) =~= seq![]);
    assert(mounts_view(container.volume_mounts@) =~= seq![]);
    let mut containers: Vec<Container> = Vec::new();
    containers.push(container);
    assert(containers_view(containers@) =~= legacy_watcher_body(name@, image@, pipeline@).containers);
    let annotations: Vec<Annotation> = Vec::new();
    assert(annotations_view(annotations@) =~= seq![]);
    let volumes = Vec::new();
    assert(volumes_view(volumes@) =~= seq![]);

    CronJobManifest {
        api_version: String::from_str("batch/v1beta1"),
        kind: String::from_str("CronJob"),
        name: name.clone(),
        resource_version: None,
        labels,
        annotations,
        schedule: String::from_str("* * * * *"),
        concurrency_policy: None,
        pod_labels,
        containers,
        volumes,
        restart_policy: String::from_str("Never"),
    }
}

proof fn lemma_pick_first(name: Seq<char>, rs: Seq<Resource>, q: int)
    requires
        0 <= q < rs.len(),
        opt_view(rs[q].metadata.name) == Some(name),
        forall|p: int| 0 <= p < q ==> opt_view(#[trigger] rs[p].metadata.name) != Some(name),
    ensures
        pick(name, rs) == Some(rs[q]@),
    decreases rs.len(),
{
    if q > 0 {
        let rest = rs.drop_first();
        assert(opt_view(rs[0].metadata.name) != Some(name));
        assert forall|p: int| 0 <= p < q - 1 implies opt_view(#[trigger] rest[p].metadata.name) != Some(name) by {
            assert(rest[p] == rs[p + 1]);
        }
        assert(rest[q - 1] == rs[q]);
        lemma_pick_first(name, rest, q - 1);
    }
}

proof fn lemma_desired_from_contains(
    pipeline: Seq<char>,
    namespace: Seq<char>,
    prs: Seq<PipelineResource>,
    rs: Seq<Resource>,
    j: int,
    x: ResourceDataView,
)
    requires
        0 <= j < prs.len(),
        prs[j].trigger,
        pick(prs[j].name@, rs) is Some,
        x == (ResourceDataView {
            image: pick(prs[j].name@, rs)->0.spec.image,
            name: pipeline + seq!['-'] + pick(prs[j].name@, rs)->0.metadata.name->0,
            namespace,
            pipeline,
        }),
    ensures
        desired_from(pipeline, namespace, prs, rs).contains(x),
    decreases prs.len(),
{
    let pre = prs.drop_last();
    let all = desired_from(pipeline, namespace, prs, rs);
    if j < prs.len() - 1 {
        assert(pre[j] == prs[j]);
        lemma_desired_from_contains(pipeline, namespace, pre, rs, j, x);
        let rest = desired_from(pipeline, namespace, pre, rs);
        let i = choose|i: int| 0 <= i < rest.len() && rest[i] == x;
        assert(all[i] == rest[i]);
    } else {
        assert(all[all.len() - 1] == x);
    }
}

proof fn lemma_desired_contains(ps: Seq<KubePipeline>, rs: Seq<Resource>, i: int, x: ResourceDataView)
    requires
        0 <= i < ps.len(),
        ps[i].metadata.name is Some,
        ps[i].metadata.namespace is Some,
        desired_from(ps[i].metadata.name->0@, ps[i].metadata.namespace->0@, ps[i].spec.resources@, rs).contains(x),
    ensures
        desired(ps, rs).contains(x),
    decreases ps.len(),
{
    let pre = ps.drop_last();
    let rest = desired(pre, rs);
    let all = desired(ps, rs);
    if i < ps.len() - 1 {
        assert(pre[i] == ps[i]);
        lemma_desired_contains(pre, rs, i, x);
        let t = choose|t: int| 0 <= t < rest.len() && rest[t] == x;
        assert(all[t] == rest[t]);
    } else {
        let p = ps[i];
        let mine = desired_from(p.metadata.name->0@, p.metadata.namespace->0@, p.spec.resources@, rs);
        let t = choose|t: int| 0 <= t < mine.len() && mine[t] == x;
        assert(all[rest.len() + t] == mine[t]);
    }
}

/// Every triggering resource of every pipeline with a name and a namespace
/// gets a watcher, whatever entries stand before it in the pipeline: where the
/// first resource defined under that name is `rs[q]`, the desired watchers hold
/// `<pipeline>-<resource>` in the pipeline's namespace, running `rs[q]`'s image.
pub proof fn law_every_triggering_resource_is_watched(ps: Seq<KubePipeline>, rs: Seq<Resource>, i: int, j: int, q: int)
    requires
        0 <= i < ps.len(),
        ps[i].metadata.name is Some,
        ps[i].metadata.namespace is Some,
        0 <= j < ps[i].spec.resources@.len(),
        ps[i].spec.resources@[j].trigger,
        0 <= q < rs.len(),
        opt_view(rs[q].metadata.name) == Some(ps[i].spec.resources@[j].name@),
        forall|p: int| 0 <= p < q ==> opt_view(#[trigger] rs[p].metadata.name) != Some(ps[i].spec.resources@[j].name@),
    ensures
        desired(ps, rs).contains(ResourceDataView {
            image: rs[q].spec.image@,
            name: ps[i].metadata.name->0@ + seq!['-'] + ps[i].spec.resources@[j].name@,
            namespace: ps[i].metadata.namespace->0@,
            pipeline: ps[i].metadata.name->0@,
        }),
{
    let p = ps[i];
    let r = p.spec.resources@[j];
    lemma_pick_first(r.name@, rs, q);
    let x = ResourceDataView {
        image: rs[q].spec.image@,
        name: p.metadata.name->0@ + seq!['-'] + r.name@,
        namespace: p.metadata.namespace->0@,
        pipeline: p.metadata.name->0@,
    };
    lemma_desired_from_contains(p.metadata.name->0@, p.metadata.namespace->0@, p.spec.resources@, rs, j, x);
    lemma_desired_contains(ps, rs, i, x);
}

} // verus!
