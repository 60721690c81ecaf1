use vstd::prelude::*;
use crate::meta::{get_annotation, lookup, opt_view};
use crate::pipeline_monitor::cron::{
    env_key, env_key_string, image_key, image_key_string, pipeline_key, pipeline_key_string,
    resource_key, resource_key_string, secrets_key, secrets_key_string, CronJob,
};
use crate::pipeline_monitor::pipelines::{Pipeline, Resource as PipelineResource};
use crate::pipeline_monitor::resources::{
    clone_envs, clone_secrets, envs_eq, envs_view, secrets_eq, secrets_view, EnvVar,
    EnvVarView, Resource, ResourceView, Secret, SecretView,
};
use crate::text::join_dash;

verus! {

/// A resource watcher: the CronJob that polls one resource for one pipeline.
pub struct ResourceData {
    pub image: String,
    pub name: String,
    pub resource: String,
    pub namespace: String,
    pub pipeline: String,
    pub env: Vec<EnvVar>,
    pub secrets: Vec<Secret>,
    pub resource_version: String,
}

/// What the pipeline monitor has to do to the running resource watchers.
pub struct Operations {
    pub to_add: Vec<ResourceData>,
    pub to_update: Vec<ResourceData>,
    pub to_remove: Vec<ResourceData>,
}

pub struct ResourceDataView {
    pub image: Seq<char>,
    pub name: Seq<char>,
    pub resource: Seq<char>,
    pub namespace: Seq<char>,
    pub pipeline: Seq<char>,
    pub env: Seq<EnvVarView>,
    pub secrets: Seq<SecretView>,
    pub resource_version: Seq<char>,
}

pub struct OperationsView {
    pub to_add: Seq<ResourceDataView>,
    pub to_update: Seq<ResourceDataView>,
    pub to_remove: Seq<ResourceDataView>,
}

impl View for ResourceData {
    type V = ResourceDataView;

    open spec fn view(&self) -> ResourceDataView {
        ResourceDataView {
            image: self.image@,
            name: self.name@,
            resource: self.resource@,
            namespace: self.namespace@,
            pipeline: self.pipeline@,
            env: envs_view(self.env@),
            secrets: secrets_view(self.secrets@),
            resource_version: self.resource_version@,
        }
    }
}

pub open spec fn rds_view(rs: Seq<ResourceData>) -> Seq<ResourceDataView> {
    rs.map_values(|r: ResourceData| r@)
}

pub open spec fn opt_rd_view(o: Option<ResourceData>) -> Option<ResourceDataView> {
    match o {
        Some(r) => Some(r@),
        None => None,
    }
}

impl View for Operations {
    type V = OperationsView;

    open spec fn view(&self) -> OperationsView {
        OperationsView {
            to_add: rds_view(self.to_add@),
            to_update: rds_view(self.to_update@),
            to_remove: rds_view(self.to_remove@),
        }
    }
}

/// How a watcher is shown in the monitor's log.
pub open spec fn display_of(r: ResourceDataView) -> Seq<char> {
    r.name + " [ns: "@ + r.namespace + ", img: "@ + r.image + ", pl: "@ + r.pipeline + "]"@
}

impl ResourceData {
    /// The watcher as the monitor shows it: `name [ns: namespace, img: image, pl: pipeline]`.
    pub fn to_display_string(&self) -> (s: String)
        ensures
            s@ == display_of(self@),
    {
        let mut s = self.name.clone();
        s.append(" [ns: ");
        s.append(self.namespace.as_str());
        s.append(", img: ");
        s.append(self.image.as_str());
        s.append(", pl: ");
        s.append(self.pipeline.as_str());
        s.append("]");
        s
    }
}

impl Clone for ResourceData {
    fn clone(&self) -> (r: Self)
        ensures
            r@ == self@,
    {
        ResourceData {
            image: self.image.clone(),
            name: self.name.clone(),
            resource: self.resource.clone(),
            namespace: self.namespace.clone(),
            pipeline: self.pipeline.clone(),
            env: clone_envs(&self.env),
            secrets: clone_secrets(&self.secrets),
            resource_version: self.resource_version.clone(),
        }
    }
}

// ---------------------------------------------------------------------------
// The desired watchers
// ---------------------------------------------------------------------------

/// The first resource whose name is `name`.
pub open spec fn pick(name: Seq<char>, rs: Seq<Resource>) -> Option<ResourceView>
    decreases rs.len(),
{
    if rs.len() == 0 {
        None
    } else if opt_view(rs[0].metadata.name) == Some(name) {
        Some(rs[0]@)
    } else {
        pick(name, rs.drop_first())
    }
}

/// The watcher that the resource `r` of the pipeline `pipeline` in `namespace` asks for, if any.
pub open spec fn desired_entry(
    pipeline: Seq<char>,
    namespace: Seq<char>,
    r: PipelineResource,
    rs: Seq<Resource>,
) -> Option<ResourceDataView> {
    if !r.trigger {
        None
    } else {
        match pick(r.name@, rs) {
            None => None,
            Some(d) => match d.metadata.name {
                None => None,
                Some(rn) => Some(
                    ResourceDataView {
                        image: d.spec.image,
                        name: pipeline + seq!['-'] + rn,
                        resource: rn,
                        namespace: namespace,
                        pipeline: pipeline,
                        env: d.spec.env,
                        secrets: d.spec.secrets,
                        resource_version: seq!['0'],
                    },
                ),
            },
        }
    }
}

/// The watchers that the resources `prs` of one pipeline ask for, in order.
pub open spec fn desired_from(
    pipeline: Seq<char>,
    namespace: Seq<char>,
    prs: Seq<PipelineResource>,
    rs: Seq<Resource>,
) -> Seq<ResourceDataView>
    decreases prs.len(),
{
    if prs.len() == 0 {
        seq![]
    } else {
        let rest = desired_from(pipeline, namespace, prs.drop_last(), rs);
        match desired_entry(pipeline, namespace, prs.last(), rs) {
            Some(e) => rest.push(e),
            None => rest,
        }
    }
}

/// The watchers that one pipeline asks for: none where it lacks a name or a namespace.
pub open spec fn desired_for_pipeline(p: Pipeline, rs: Seq<Resource>) -> Seq<ResourceDataView> {
    match (p.metadata.name, p.metadata.namespace) {
        (Some(name), Some(ns)) => desired_from(name@, ns@, p.spec.resources@, rs),
        _ => seq![],
    }
}

/// The watchers that all pipelines ask for, pipeline by pipeline.
pub open spec fn desired_resources(ps: Seq<Pipeline>, rs: Seq<Resource>) -> Seq<ResourceDataView>
    decreases ps.len(),
{
    if ps.len() == 0 {
        seq![]
    } else {
        desired_resources(ps.drop_last(), rs) + desired_for_pipeline(ps.last(), rs)
    }
}

/// Why `pick_resource` found nothing: no resource has the name asked for.
pub struct ResourceNotFound {
    pub name: String,
}

/// The message of a failed lookup: `Failed to find resource: <name>`.
pub open spec fn not_found_message(name: Seq<char>) -> Seq<char> {
    "Failed to find resource: "@ + name
}

impl ResourceNotFound {
    /// The error's message, which names the resource looked for.
    pub fn message(&self) -> (s: String)
        ensures
            s@ == not_found_message(self.name@),
    {
        let mut s = String::from_str("Failed to find resource: ");
        s.append(self.name.as_str());
        s
    }
}

/// The first resource named `name`, or an error that names it.
pub fn pick_resource(name: &String, resources: &Vec<Resource>) -> (r: Result<Resource, ResourceNotFound>)
    ensures
        match r {
            Ok(d) => pick(name@, resources@) == Some(d@),
            Err(e) => pick(name@, resources@) is None && e.name@ == name@,
        },
{
    let n = resources.len();
    let mut i: usize = 0;
    assert(resources@.subrange(0, n as int) =~= resources@);
    while i < n
        invariant
            n == resources@.len(),
            i <= n,
            pick(name@, resources@) == pick(name@, resources@.subrange(i as int, n as int)),
        decreases n - i,
    {
        let ghost rest = resources@.subrange(i as int, n as int);
        assert(rest.drop_first() =~= resources@.subrange(i + 1, n as int));
        assert(rest[0] == resources@[i as int]);
        match &resources[i].metadata.name {
            Some(rn) => {
                if *rn == *name {
                    let found = resources[i].clone();
                    return Ok(found);
                }
            },
            None => {},
        }
        i = i + 1;
    }
    Err(ResourceNotFound { name: name.clone() })
}

fn desired_entry_exec(
    pipeline: &String,
    namespace: &String,
    r: &PipelineResource,
    resources: &Vec<Resource>,
) -> (e: Option<ResourceData>)
    ensures
        opt_rd_view(e) == desired_entry(pipeline@, namespace@, *r, resources@),
{
    if !r.trigger {
        return None;
    }
    let definition = match pick_resource(&r.name, resources) {
        Ok(d) => d,
        Err(_) => {
            return None;
        },
    };
    let resource_name = match &definition.metadata.name {
        Some(rn) => rn.clone(),
        None => {
            return None;
        },
    };
    let full_name = join_dash(pipeline, &resource_name);
    let version = String::from_str("0");
    proof {
        reveal_strlit("0");
        assert(version@ =~= seq!['0']);
    }
    let ghost d = definition@;
    assert(pick(r.name@, resources@) == Some(d));
    Some(
        ResourceData {
            image: definition.spec.image,
            name: full_name,
            resource: resource_name,
            namespace: namespace.clone(),
            pipeline: pipeline.clone(),
            env: definition.spec.env,
            secrets: definition.spec.secrets,
            resource_version: version,
        },
    )
}

proof fn lemma_rds_push(rs: Seq<ResourceData>, r: ResourceData)
    ensures
        rds_view(rs.push(r)) == rds_view(rs).push(r@),
{
    assert(rds_view(rs.push(r)) =~= rds_view(rs).push(r@));
}

/// The resource watchers that the pipelines ask for: one for each triggering
/// resource of each pipeline with a name and a namespace, where a resource of
/// that name is defined.
pub fn get_desired_resources(pipelines: Vec<Pipeline>, resources: Vec<Resource>) -> (r: Vec<ResourceData>)
    ensures
        rds_view(r@) == desired_resources(pipelines@, resources@),
{
    let mut out: Vec<ResourceData> = Vec::new();
    let n = pipelines.len();
    let mut i: usize = 0;
    assert(rds_view(out@) =~= desired_resources(pipelines@.take(0), resources@));
    while i < n
        invariant
            n == pipelines@.len(),
            i <= n,
            rds_view(out@) == desired_resources(pipelines@.take(i as int), resources@),
        decreases n - i,
    {
        let p = &pipelines[i];
        assert(pipelines@.take(i + 1).drop_last() =~= pipelines@.take(i as int));
        match (&p.metadata.name, &p.metadata.namespace) {
            (Some(pname), Some(ns)) => {
                let m = p.spec.resources.len();
                let mut j: usize = 0;
                let ghost base = rds_view(out@);
                assert(base + desired_from(pname@, ns@, p.spec.resources@.take(0), resources@) =~= base);
                while j < m
                    invariant
                        m == p.spec.resources@.len(),
                        j <= m,
                        rds_view(out@) == base + desired_from(pname@, ns@, p.spec.resources@.take(j as int), resources@),
                    decreases m - j,
                {
                    assert(p.spec.resources@.take(j + 1).drop_last() =~= p.spec.resources@.take(j as int));
                    let ghost before = desired_from(pname@, ns@, p.spec.resources@.take(j as int), resources@);
                    match desired_entry_exec(pname, ns, &p.spec.resources[j], &resources) {
                        Some(e) => {
                            proof {
                                lemma_rds_push(out@, e);
                                assert(base + before.push(e@) =~= (base + before).push(e@));
                            }
                            out.push(e);
                        },
                        None => {},
                    }
                    j = j + 1;
                }
                assert(p.spec.resources@.take(m as int) =~= p.spec.resources@);
            },
            _ => {
                assert(rds_view(out@) =~= rds_view(out@) + desired_for_pipeline(pipelines@[i as int], resources@));
            },
        }
        i = i + 1;
    }
    assert(pipelines@.take(n as int) =~= pipelines@);
    out
}

// ---------------------------------------------------------------------------
// The running watchers
// ---------------------------------------------------------------------------

/// The watcher that a CronJob stands for: none where its metadata, name,
/// namespace or annotations are missing, where one of the pipeline, resource,
/// image, secrets and env annotations is missing, or where the secrets or the
/// env do not decode. A missing resource version reads as `"0"`.
pub open spec fn current_entry(c: CronJob) -> Option<ResourceDataView> {
    match c.metadata {
        None => None,
        Some(m) => match (m.name, m.namespace, m.annotations) {
            (Some(name), Some(ns), Some(anns)) => {
                let a = anns@;
                match (
                    lookup(a, pipeline_key()),
                    lookup(a, resource_key()),
                    lookup(a, image_key()),
                    lookup(a, secrets_key()),
                    lookup(a, env_key()),
                    c.decoded_secrets,
                    c.decoded_env,
                ) {
                    (Some(pl), Some(res), Some(img), Some(_), Some(_), Some(sec), Some(env)) => Some(
                        ResourceDataView {
                            image: img,
                            name: name@,
                            resource: res,
                            namespace: ns@,
                            pipeline: pl,
                            env: envs_view(env@),
                            secrets: secrets_view(sec@),
                            resource_version: match m.resource_version {
                                Some(v) => v@,
                                None => seq!['0'],
                            },
                        },
                    ),
                    _ => None,
                }
            },
            _ => None,
        },
    }
}

/// The watchers that the CronJobs stand for, in order.
pub open spec fn current_resources(cs: Seq<CronJob>) -> Seq<ResourceDataView>
    decreases cs.len(),
{
    if cs.len() == 0 {
        seq![]
    } else {
        let rest = current_resources(cs.drop_last());
        match current_entry(cs.last()) {
            Some(e) => rest.push(e),
            None => rest,
        }
    }
}

fn current_entry_exec(c: &CronJob) -> (e: Option<ResourceData>)
    ensures
        opt_rd_view(e) == current_entry(*c),
{
    let m = match &c.metadata {
        Some(m) => m,
        None => {
            return None;
        },
    };
    let name = match &m.name {
        Some(n) => n,
        None => {
            return None;
        },
    };
    let namespace = match &m.namespace {
        Some(n) => n,
        None => {
            return None;
        },
    };
    let annotations = match &m.annotations {
        Some(a) => a,
        None => {
            return None;
        },
    };
    let pipeline = match get_annotation(annotations, &pipeline_key_string()) {
        Some(v) => v,
        None => {
            return None;
        },
    };
    let resource = match get_annotation(annotations, &resource_key_string()) {
        Some(v) => v,
        None => {
            return None;
        },
    };
    let image = match get_annotation(annotations, &image_key_string()) {
        Some(v) => v,
        None => {
            return None;
        },
    };
    let secrets = match get_annotation(annotations, &secrets_key_string()) {
        Some(_) => match &c.decoded_secrets {
            Some(s) => clone_secrets(s),
            None => {
                return None;
            },
        },
        None => {
            return None;
        },
    };
    let env = match get_annotation(annotations, &env_key_string()) {
        Some(_) => match &c.decoded_env {
            Some(e) => clone_envs(e),
            None => {
                return None;
            },
        },
        None => {
            return None;
        },
    };
    let resource_version = match &m.resource_version {
        Some(v) => v.clone(),
        None => {
            let z = String::from_str("0");
            proof {
                reveal_strlit("0");
                assert(z@ =~= seq!['0']);
            }
            z
        },
    };
    Some(
        ResourceData {
            image,
            name: name.clone(),
            resource,
            namespace: namespace.clone(),
            pipeline,
            env,
            secrets,
            resource_version,
        },
    )
}

/// The resource watchers that the CronJobs stand for: one for each CronJob
/// that carries a name, a namespace, and the pipeline, resource, image,
/// secrets and env annotations, whose secrets and env decode.
pub fn get_current_resources(crons: Vec<CronJob>) -> (r: Vec<ResourceData>)
    ensures
        rds_view(r@) == current_resources(crons@),
{
    let mut out: Vec<ResourceData> = Vec::new();
    let n = crons.len();
    let mut i: usize = 0;
    assert(rds_view(out@) =~= current_resources(crons@.take(0)));
    while i < n
        invariant
            n == crons@.len(),
            i <= n,
            rds_view(out@) == current_resources(crons@.take(i as int)),
        decreases n - i,
    {
        assert(crons@.take(i + 1).drop_last() =~= crons@.take(i as int));
        match current_entry_exec(&crons[i]) {
            Some(e) => {
                proof {
                    lemma_rds_push(out@, e);
                }
                out.push(e);
            },
            None => {},
        }
        i = i + 1;
    }
    assert(crons@.take(n as int) =~= crons@);
    out
}

// ---------------------------------------------------------------------------
// The operations
// ---------------------------------------------------------------------------

/// Two watchers occupy the same slot: the same name in the same namespace.
pub open spec fn same_slot(a: ResourceDataView, b: ResourceDataView) -> bool {
    a.name == b.name && a.namespace == b.namespace
}

/// The first running watcher in the slot of `d`.
pub open spec fn first_match(d: ResourceDataView, cs: Seq<ResourceDataView>) -> Option<ResourceDataView>
    decreases cs.len(),
{
    if cs.len() == 0 {
        None
    } else if same_slot(d, cs[0]) {
        Some(cs[0])
    } else {
        first_match(d, cs.drop_first())
    }
}

/// `d` carrying the resource version `v`.
pub open spec fn with_version(d: ResourceDataView, v: Seq<char>) -> ResourceDataView {
    ResourceDataView { resource_version: v, ..d }
}

/// The update that the desired watcher `d` needs: where the first running
/// watcher in its slot belongs to the same pipeline and differs from it in its
/// secrets or its environment, `d` with that watcher's resource version.
pub open spec fn update_of(d: ResourceDataView, cs: Seq<ResourceDataView>) -> Option<ResourceDataView> {
    match first_match(d, cs) {
        Some(c) => if c.pipeline == d.pipeline && (d.secrets != c.secrets || d.env != c.env) {
            Some(with_version(d, c.resource_version))
        } else {
            None
        },
        None => None,
    }
}

/// The desired watchers whose slot no running watcher occupies, in order.
pub open spec fn adds(ds: Seq<ResourceDataView>, cs: Seq<ResourceDataView>) -> Seq<ResourceDataView>
    decreases ds.len(),
{
    if ds.len() == 0 {
        seq![]
    } else {
        let rest = adds(ds.drop_last(), cs);
        if first_match(ds.last(), cs) is None {
            rest.push(ds.last())
        } else {
            rest
        }
    }
}

/// The updates that the desired watchers need, in order.
pub open spec fn updates(ds: Seq<ResourceDataView>, cs: Seq<ResourceDataView>) -> Seq<ResourceDataView>
    decreases ds.len(),
{
    if ds.len() == 0 {
        seq![]
    } else {
        let rest = updates(ds.drop_last(), cs);
        match update_of(ds.last(), cs) {
            Some(u) => rest.push(u),
            None => rest,
        }
    }
}

/// Some desired watcher has the slot and the pipeline of `c`.
pub open spec fn owned(c: ResourceDataView, ds: Seq<ResourceDataView>) -> bool {
    exists|j: int| 0 <= j < ds.len() && same_slot(#[trigger] ds[j], c) && ds[j].pipeline == c.pipeline
}

/// The running watchers that no desired watcher owns, in order.
pub open spec fn removes(ds: Seq<ResourceDataView>, cs: Seq<ResourceDataView>) -> Seq<ResourceDataView>
    decreases cs.len(),
{
    if cs.len() == 0 {
        seq![]
    } else {
        let rest = removes(ds, cs.drop_last());
        if !owned(cs.last(), ds) {
            rest.push(cs.last())
        } else {
            rest
        }
    }
}

/// The operations that turn the running watchers `cs` into the desired ones `ds`.
pub open spec fn operations_for(ds: Seq<ResourceDataView>, cs: Seq<ResourceDataView>) -> OperationsView {
    OperationsView { to_add: adds(ds, cs), to_update: updates(ds, cs), to_remove: removes(ds, cs) }
}

/// The index of the first watcher of `cs` in the slot of `d`.
fn find_slot(d: &ResourceData, cs: &Vec<ResourceData>) -> (r: Option<usize>)
    ensures
        match r {
            None => first_match(d@, rds_view(cs@)) is None,
            Some(k) => k < cs@.len() && first_match(d@, rds_view(cs@)) == Some(cs@[k as int]@),
        },
{
    let ghost cv = rds_view(cs@);
    let n = cs.len();
    let mut i: usize = 0;
    assert(cv.subrange(0, n as int) =~= cv);
    while i < n
        invariant
            n == cs@.len(),
            cv == rds_view(cs@),
            i <= n,
            first_match(d@, cv) == first_match(d@, cv.subrange(i as int, n as int)),
        decreases n - i,
    {
        let ghost rest = cv.subrange(i as int, n as int);
        assert(rest.drop_first() =~= cv.subrange(i + 1, n as int));
        assert(rest[0] == cs@[i as int]@);
        if d.name == cs[i].name && d.namespace == cs[i].namespace {
            return Some(i);
        }
        i = i + 1;
    }
    None
}

/// The operations that bring the running resource watchers (`crons`) in line
/// with the watchers that the pipelines ask for.
///
/// A desired watcher is added where no running watcher has its name in its
/// namespace. Where one has, the first such watcher decides: if it belongs to
/// another pipeline nothing happens; if its secrets or environment differ, the
/// desired watcher is updated, carrying the running watcher's resource
/// version. A running watcher is removed where no desired watcher has its name,
/// namespace and pipeline.
pub fn get_operations(pipelines: Vec<Pipeline>, resources: Vec<Resource>, crons: Vec<CronJob>) -> (ops: Operations)
    ensures
        ops@ == operations_for(
            desired_resources(pipelines@, resources@),
            current_resources(crons@),
        ),
{
    let desired = get_desired_resources(pipelines, resources);
    let current = get_current_resources(crons);
    let ghost ds = rds_view(desired@);
    let ghost cs = rds_view(current@);

    let mut to_add: Vec<ResourceData> = Vec::new();
    let mut to_update: Vec<ResourceData> = Vec::new();
    let n = desired.len();
    let mut i: usize = 0;
    assert(rds_view(to_add@) =~= adds(ds.take(0), cs));
    assert(rds_view(to_update@) =~= updates(ds.take(0), cs));
    while i < n
        invariant
            n == desired@.len(),
            ds == rds_view(desired@),
            cs == rds_view(current@),
            i <= n,
            rds_view(to_add@) == adds(ds.take(i as int), cs),
            rds_view(to_update@) == updates(ds.take(i as int), cs),
        decreases n - i,
    {
        let d = &desired[i];
        assert(ds.take(i + 1).drop_last() =~= ds.take(i as int));
        assert(ds.take(i + 1).last() == d@);
        match find_slot(d, &current) {
            None => {
                let a = d.clone();
                proof {
                    lemma_rds_push(to_add@, a);
                }
                to_add.push(a);
            },
            Some(k) => {
                let c = &current[k];
                if d.pipeline == c.pipeline {
                    if !secrets_eq(&d.secrets, &c.secrets) || !envs_eq(&d.env, &c.env) {
                        let mut u = d.clone();
                        u.resource_version = c.resource_version.clone();
                        proof {
                            lemma_rds_push(to_update@, u);
                            assert(u@ == with_version(d@, c@.resource_version));
                        }
                        to_update.push(u);
                    }
                }
            },
        }
        i = i + 1;
    }
    assert(ds.take(n as int) =~= ds);

    let mut to_remove: Vec<ResourceData> = Vec::new();
    let m = current.len();
    let mut k: usize = 0;
    assert(rds_view(to_remove@) =~= removes(ds, cs.take(0)));
    while k < m
        invariant
            n == desired@.len(),
            m == current@.len(),
            ds == rds_view(desired@),
            cs == rds_view(current@),
            k <= m,
            rds_view(to_remove@) == removes(ds, cs.take(k as int)),
        decreases m - k,
    {
        let c = &current[k];
        let mut remove = true;
        let mut j: usize = 0;
        while j < n
            invariant
                n == desired@.len(),
                ds == rds_view(desired@),
                j <= n,
                remove == !(exists|jj: int| 0 <= jj < j && same_slot(#[trigger] ds[jj], c@) && ds[jj].pipeline == c@.pipeline),
            decreases n - j,
        {
            let d = &desired[j];
            assert(ds[j as int] == d@);
            if d.name == c.name && d.namespace == c.namespace && d.pipeline == c.pipeline {
                remove = false;
            }
            j = j + 1;
        }
        assert(cs.take(k + 1).drop_last() =~= cs.take(k as int));
        assert(cs.take(k + 1).last() == c@);
        if remove {
            let r = c.clone();
            proof {
                lemma_rds_push(to_remove@, r);
            }
            to_remove.push(r);
        }
        k = k + 1;
    }
    assert(cs.take(m as int) =~= cs);
    Operations { to_add, to_update, to_remove }
}

} // verus!
