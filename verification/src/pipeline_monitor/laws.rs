use vstd::prelude::*;
use crate::pipeline_monitor::operations::{
    adds, desired_entry, desired_for_pipeline, desired_from, desired_resources, first_match, pick,
    owned, removes, same_slot, update_of, updates, with_version, ResourceDataView,
};
use crate::pipeline_monitor::pipelines::{Pipeline, Resource as PipelineResource};
use crate::pipeline_monitor::resources::{envs_view, secrets_view, Resource};
use crate::pipeline_monitor::cron::{
    env_key, image_key, minion_type_key, pipeline_key, resource_key, secrets_key, CronJob,
};
use crate::pipeline_monitor::operations::current_entry;
use crate::pipeline_monitor::resource_watcher::{mounts_for, params_for, resource_watcher_body, volumes_for};
use crate::meta::{annotations_view, lookup, opt_view, Annotation};

verus! {

/// A running watcher `c` matches the desired watcher `d` in everything the
/// monitor compares: name, namespace, pipeline, secrets and environment.
pub open spec fn agrees(c: ResourceDataView, d: ResourceDataView) -> bool {
    &&& same_slot(d, c)
    &&& c.pipeline == d.pipeline
    &&& c.secrets == d.secrets
    &&& c.env == d.env
}

/// No two watchers of `cs` share a slot.
pub open spec fn unique_slots(cs: Seq<ResourceDataView>) -> bool {
    forall|i: int, j: int| 0 <= i < cs.len() && 0 <= j < cs.len() && i != j ==> !same_slot(#[trigger] cs[i], #[trigger] cs[j])
}

proof fn lemma_first_match(d: ResourceDataView, cs: Seq<ResourceDataView>)
    ensures
        first_match(d, cs) is None <==> (forall|k: int| 0 <= k < cs.len() ==> !same_slot(d, #[trigger] cs[k])),
        first_match(d, cs) matches Some(c) ==> same_slot(d, c) && exists|k: int| 0 <= k < cs.len() && cs[k] == c && (forall|l: int| 0 <= l < k ==> !same_slot(d, #[trigger] cs[l])),
    decreases cs.len(),
{
    if cs.len() > 0 {
        lemma_first_match(d, cs.drop_first());
        if !same_slot(d, cs[0]) {
            assert forall|k: int| 0 <= k < cs.drop_first().len() implies cs.drop_first()[k] == #[trigger] cs[k + 1] by {}
            if first_match(d, cs) is None {
                assert forall|k: int| 0 <= k < cs.len() implies !same_slot(d, #[trigger] cs[k]) by {
                    if k > 0 {
                        assert(cs[k] == cs.drop_first()[k - 1]);
                    }
                }
            } else {
                let c = first_match(d, cs)->0;
                let k0 = choose|k: int| 0 <= k < cs.drop_first().len() && cs.drop_first()[k] == c && (forall|l: int| 0 <= l < k ==> !same_slot(d, #[trigger] cs.drop_first()[l]));
                assert(cs[k0 + 1] == c);
                assert forall|l: int| 0 <= l < k0 + 1 implies !same_slot(d, #[trigger] cs[l]) by {
                    if l > 0 {
                        assert(cs[l] == cs.drop_first()[l - 1]);
                    }
                }
                if forall|k: int| 0 <= k < cs.len() ==> !same_slot(d, #[trigger] cs[k]) {
                    assert(!same_slot(d, cs[k0 + 1]));
                }
            }
        } else {
            assert(cs[0] == first_match(d, cs)->0);
        }
    }
}

proof fn lemma_adds(ds: Seq<ResourceDataView>, cs: Seq<ResourceDataView>)
    ensures
        forall|i: int| 0 <= i < adds(ds, cs).len() ==> ds.contains(#[trigger] adds(ds, cs)[i]) && first_match(adds(ds, cs)[i], cs) is None,
        forall|k: int| 0 <= k < ds.len() && first_match(#[trigger] ds[k], cs) is None ==> adds(ds, cs).contains(ds[k]),
    decreases ds.len(),
{
    if ds.len() > 0 {
        let pre = ds.drop_last();
        lemma_adds(pre, cs);
        let a = adds(ds, cs);
        assert forall|i: int| 0 <= i < a.len() implies ds.contains(#[trigger] a[i]) && first_match(a[i], cs) is None by {
            if i < adds(pre, cs).len() {
                assert(a[i] == adds(pre, cs)[i]);
                let k = choose|k: int| 0 <= k < pre.len() && pre[k] == a[i];
                assert(ds[k] == a[i]);
            } else {
                assert(a[i] == ds.last());
                assert(ds[ds.len() - 1] == a[i]);
            }
        }
        assert forall|k: int| 0 <= k < ds.len() && first_match(#[trigger] ds[k], cs) is None implies a.contains(ds[k]) by {
            if k < pre.len() {
                assert(pre[k] == ds[k]);
                let i = choose|i: int| 0 <= i < adds(pre, cs).len() && adds(pre, cs)[i] == ds[k];
                assert(a[i] == ds[k]);
            } else {
                assert(a[a.len() - 1] == ds[k]);
            }
        }
    }
}

proof fn lemma_removes(ds: Seq<ResourceDataView>, cs: Seq<ResourceDataView>)
    ensures
        forall|i: int| 0 <= i < removes(ds, cs).len() ==> cs.contains(#[trigger] removes(ds, cs)[i]) && !owned(removes(ds, cs)[i], ds),
        forall|k: int| 0 <= k < cs.len() && !owned(#[trigger] cs[k], ds) ==> removes(ds, cs).contains(cs[k]),
    decreases cs.len(),
{
    if cs.len() > 0 {
        let pre = cs.drop_last();
        lemma_removes(ds, pre);
        let r = removes(ds, cs);
        assert forall|i: int| 0 <= i < r.len() implies cs.contains(#[trigger] r[i]) && !owned(r[i], ds) by {
            if i < removes(ds, pre).len() {
                assert(r[i] == removes(ds, pre)[i]);
                let k = choose|k: int| 0 <= k < pre.len() && pre[k] == r[i];
                assert(cs[k] == r[i]);
            } else {
                assert(r[i] == cs.last());
                assert(cs[cs.len() - 1] == r[i]);
            }
        }
        assert forall|k: int| 0 <= k < cs.len() && !owned(#[trigger] cs[k], ds) implies r.contains(cs[k]) by {
            if k < pre.len() {
                assert(pre[k] == cs[k]);
                let i = choose|i: int| 0 <= i < removes(ds, pre).len() && removes(ds, pre)[i] == cs[k];
                assert(r[i] == cs[k]);
            } else {
                assert(r[r.len() - 1] == cs[k]);
            }
        }
    }
}

proof fn lemma_updates(ds: Seq<ResourceDataView>, cs: Seq<ResourceDataView>)
    ensures
        forall|i: int| #![trigger updates(ds, cs)[i]] 0 <= i < updates(ds, cs).len() ==> exists|k: int| 0 <= k < ds.len() && update_of(#[trigger] ds[k], cs) == Some(updates(ds, cs)[i]),
    decreases ds.len(),
{
    if ds.len() > 0 {
        let pre = ds.drop_last();
        lemma_updates(pre, cs);
        let u = updates(ds, cs);
        assert forall|i: int| #![trigger u[i]] 0 <= i < u.len() implies exists|k: int| 0 <= k < ds.len() && update_of(#[trigger] ds[k], cs) == Some(u[i]) by {
            if i < updates(pre, cs).len() {
                assert(u[i] == updates(pre, cs)[i]);
                let k = choose|k: int| 0 <= k < pre.len() && update_of(#[trigger] pre[k], cs) == Some(updates(pre, cs)[i]);
                assert(ds[k] == pre[k]);
            } else {
                assert(update_of(ds[ds.len() - 1], cs) == Some(u[i]));
            }
        }
    }
}

/// The watchers that the monitor adds are exactly the desired watchers whose
/// slot (name and namespace) no running watcher occupies.
pub proof fn law_added_exactly_the_unplaced(ds: Seq<ResourceDataView>, cs: Seq<ResourceDataView>)
    ensures
        forall|a: ResourceDataView| #[trigger] adds(ds, cs).contains(a) <==> (ds.contains(a) && forall|k: int| 0 <= k < cs.len() ==> !same_slot(a, #[trigger] cs[k])),
{
    lemma_adds(ds, cs);
    assert forall|a: ResourceDataView| #[trigger] adds(ds, cs).contains(a) <==> (ds.contains(a) && forall|k: int| 0 <= k < cs.len() ==> !same_slot(a, #[trigger] cs[k])) by {
        lemma_first_match(a, cs);
        if ds.contains(a) && forall|k: int| 0 <= k < cs.len() ==> !same_slot(a, #[trigger] cs[k]) {
            let k = choose|k: int| 0 <= k < ds.len() && ds[k] == a;
            assert(first_match(ds[k], cs) is None);
        }
    }
}

/// The watchers that the monitor removes are exactly the running watchers
/// that no desired watcher owns (same name, namespace and pipeline).
pub proof fn law_removed_exactly_the_unowned(ds: Seq<ResourceDataView>, cs: Seq<ResourceDataView>)
    ensures
        forall|c: ResourceDataView| #[trigger] removes(ds, cs).contains(c) <==> (cs.contains(c) && !owned(c, ds)),
{
    lemma_removes(ds, cs);
    assert forall|c: ResourceDataView| #[trigger] removes(ds, cs).contains(c) <==> (cs.contains(c) && !owned(c, ds)) by {
        if cs.contains(c) && !owned(c, ds) {
            let k = choose|k: int| 0 <= k < cs.len() && cs[k] == c;
            assert(!owned(cs[k], ds));
        }
    }
}

/// The `i`-th update carries a desired watcher unchanged but for its resource
/// version, which it takes from a running watcher in its slot; that watcher
/// belongs to the same pipeline and differs in its secrets or environment.
pub proof fn law_update_keeps_desired(ds: Seq<ResourceDataView>, cs: Seq<ResourceDataView>, i: int)
    requires
        0 <= i < updates(ds, cs).len(),
    ensures
        exists|k: int, l: int|
            #![trigger ds[k], cs[l]]
            0 <= k < ds.len() && 0 <= l < cs.len()
            && same_slot(ds[k], cs[l])
            && cs[l].pipeline == ds[k].pipeline
            && (cs[l].secrets != ds[k].secrets || cs[l].env != ds[k].env)
            && updates(ds, cs)[i] == with_version(ds[k], cs[l].resource_version),
{
    lemma_updates(ds, cs);
    let k = choose|k: int| 0 <= k < ds.len() && update_of(#[trigger] ds[k], cs) == Some(updates(ds, cs)[i]);
    lemma_first_match(ds[k], cs);
    let c = first_match(ds[k], cs)->0;
    let l = choose|l: int| 0 <= l < cs.len() && cs[l] == c && (forall|m: int| 0 <= m < l ==> !same_slot(ds[k], #[trigger] cs[m]));
    assert(cs[l] == c);
    assert(updates(ds, cs)[i] == with_version(ds[k], cs[l].resource_version));
}

/// A watcher that the monitor adds never shares its slot with one that it
/// removes or one that it updates: the three lists never touch the same CronJob.
pub proof fn law_added_slots_untouched(ds: Seq<ResourceDataView>, cs: Seq<ResourceDataView>)
    ensures
        forall|i: int, j: int| 0 <= i < adds(ds, cs).len() && 0 <= j < removes(ds, cs).len() ==> !same_slot(#[trigger] adds(ds, cs)[i], #[trigger] removes(ds, cs)[j]),
        forall|i: int, j: int| 0 <= i < adds(ds, cs).len() && 0 <= j < updates(ds, cs).len() ==> !same_slot(#[trigger] adds(ds, cs)[i], #[trigger] updates(ds, cs)[j]),
{
    lemma_adds(ds, cs);
    lemma_removes(ds, cs);
    lemma_updates(ds, cs);
    assert forall|i: int, j: int| 0 <= i < adds(ds, cs).len() && 0 <= j < removes(ds, cs).len() implies !same_slot(#[trigger] adds(ds, cs)[i], #[trigger] removes(ds, cs)[j]) by {
        let a = adds(ds, cs)[i];
        lemma_first_match(a, cs);
        let r = removes(ds, cs)[j];
        let k = choose|k: int| 0 <= k < cs.len() && cs[k] == r;
        assert(!same_slot(a, cs[k]));
    }
    assert forall|i: int, j: int| 0 <= i < adds(ds, cs).len() && 0 <= j < updates(ds, cs).len() implies !same_slot(#[trigger] adds(ds, cs)[i], #[trigger] updates(ds, cs)[j]) by {
        let a = adds(ds, cs)[i];
        lemma_first_match(a, cs);
        let u = updates(ds, cs)[j];
        let k = choose|k: int| 0 <= k < ds.len() && update_of(#[trigger] ds[k], cs) == Some(u);
        lemma_first_match(ds[k], cs);
        let c = first_match(ds[k], cs)->0;
        let l = choose|l: int| 0 <= l < cs.len() && cs[l] == c && (forall|m: int| 0 <= m < l ==> !same_slot(ds[k], #[trigger] cs[m]));
        assert(same_slot(u, cs[l]));
        assert(!same_slot(a, cs[l]));
    }
}

proof fn lemma_adds_empty(ds: Seq<ResourceDataView>, cs: Seq<ResourceDataView>)
    requires
        forall|k: int| 0 <= k < ds.len() ==> first_match(#[trigger] ds[k], cs) is Some,
    ensures
        adds(ds, cs) == Seq::<ResourceDataView>::empty(),
    decreases ds.len(),
{
    if ds.len() > 0 {
        let pre = ds.drop_last();
        assert forall|k: int| 0 <= k < pre.len() implies first_match(#[trigger] pre[k], cs) is Some by {
            assert(pre[k] == ds[k]);
        }
        lemma_adds_empty(pre, cs);
        assert(first_match(ds[ds.len() - 1], cs) is Some);
    }
}

proof fn lemma_updates_empty(ds: Seq<ResourceDataView>, cs: Seq<ResourceDataView>)
    requires
        forall|k: int| 0 <= k < ds.len() ==> update_of(#[trigger] ds[k], cs) is None,
    ensures
        updates(ds, cs) == Seq::<ResourceDataView>::empty(),
    decreases ds.len(),
{
    if ds.len() > 0 {
        let pre = ds.drop_last();
        assert forall|k: int| 0 <= k < pre.len() implies update_of(#[trigger] pre[k], cs) is None by {
            assert(pre[k] == ds[k]);
        }
        lemma_updates_empty(pre, cs);
        assert(update_of(ds[ds.len() - 1], cs) is None);
    }
}

proof fn lemma_removes_empty(ds: Seq<ResourceDataView>, cs: Seq<ResourceDataView>)
    requires
        forall|k: int| 0 <= k < cs.len() ==> owned(#[trigger] cs[k], ds),
    ensures
        removes(ds, cs) == Seq::<ResourceDataView>::empty(),
    decreases cs.len(),
{
    if cs.len() > 0 {
        let pre = cs.drop_last();
        assert forall|k: int| 0 <= k < pre.len() implies owned(#[trigger] pre[k], ds) by {
            assert(pre[k] == cs[k]);
        }
        lemma_removes_empty(ds, pre);
        assert(owned(cs[cs.len() - 1], ds));
    }
}

/// When the running watchers already are what the pipelines ask for (each
/// desired watcher matched by a running one in name, namespace, pipeline,
/// secrets and environment, each running one matching a desired one, and no
/// two running watchers in one slot), the monitor has nothing to do.
pub proof fn law_settled_state_is_fixpoint(ds: Seq<ResourceDataView>, cs: Seq<ResourceDataView>)
    requires
        unique_slots(cs),
        forall|k: int| 0 <= k < ds.len() ==> exists|l: int| 0 <= l < cs.len() && agrees(#[trigger] cs[l], #[trigger] ds[k]),
        forall|l: int| 0 <= l < cs.len() ==> exists|k: int| 0 <= k < ds.len() && agrees(#[trigger] cs[l], #[trigger] ds[k]),
    ensures
        adds(ds, cs) == Seq::<ResourceDataView>::empty(),
        updates(ds, cs) == Seq::<ResourceDataView>::empty(),
        removes(ds, cs) == Seq::<ResourceDataView>::empty(),
{
    assert forall|k: int| 0 <= k < ds.len() implies first_match(#[trigger] ds[k], cs) is Some && update_of(ds[k], cs) is None by {
        let d = ds[k];
        let l0 = choose|l: int| 0 <= l < cs.len() && agrees(#[trigger] cs[l], ds[k]);
        lemma_first_match(d, cs);
        assert(same_slot(d, cs[l0]));
        let c = first_match(d, cs)->0;
        let l = choose|l: int| 0 <= l < cs.len() && cs[l] == c && (forall|m: int| 0 <= m < l ==> !same_slot(d, #[trigger] cs[m]));
        if l != l0 {
            assert(!same_slot(cs[l], cs[l0]));
        }
    }
    assert forall|l: int| 0 <= l < cs.len() implies owned(#[trigger] cs[l], ds) by {
        let k = choose|k: int| 0 <= k < ds.len() && agrees(cs[l], #[trigger] ds[k]);
        assert(same_slot(ds[k], cs[l]) && ds[k].pipeline == cs[l].pipeline);
    }
    lemma_adds_empty(ds, cs);
    lemma_updates_empty(ds, cs);
    lemma_removes_empty(ds, cs);
}

/// The resource version that a running watcher reads with.
pub open spec fn version_read(c: CronJob) -> Seq<char> {
    match c.metadata {
        Some(m) => match m.resource_version {
            Some(v) => v@,
            None => seq!['0'],
        },
        None => seq!['0'],
    }
}

/// What the monitor writes is what it reads: a CronJob that carries the name,
/// the namespace and the annotations that the monitor writes for the watcher
/// `d`, and whose secrets and env texts decode to those of `d`, is read back as
/// `d`, with the resource version that the cluster gave the CronJob.
pub proof fn law_written_watcher_reads_back(
    d: ResourceDataView,
    env_json: Seq<char>,
    secrets_json: Seq<char>,
    c: CronJob,
)
    requires
        c.metadata is Some,
        opt_view(c.metadata->0.name) == Some(d.name),
        opt_view(c.metadata->0.namespace) == Some(d.namespace),
        c.metadata->0.annotations is Some,
        annotations_view(c.metadata->0.annotations->0@) == resource_watcher_body(params_for(d, env_json, secrets_json)).annotations,
        c.decoded_secrets is Some,
        secrets_view(c.decoded_secrets->0@) == d.secrets,
        c.decoded_env is Some,
        envs_view(c.decoded_env->0@) == d.env,
    ensures
        current_entry(c) == Some(with_version(d, version_read(c))),
{
    let a = c.metadata->0.annotations->0@;
    reveal_strlit("minion.ponglehub.co.uk/pipeline");
    reveal_strlit("minion.ponglehub.co.uk/resource");
    reveal_strlit("minion.ponglehub.co.uk/image");
    reveal_strlit("minion.ponglehub.co.uk/minion-type");
    reveal_strlit("minion.ponglehub.co.uk/env");
    reveal_strlit("minion.ponglehub.co.uk/secrets");
    let v = annotations_view(a);
    assert(v.len() == 6);
    assert(a.len() == 6);
    assert forall|i: int| 0 <= i < 6 implies #[trigger] a[i]@ == v[i] by {}
    assert(pipeline_key()[23] == 'p' && resource_key()[23] == 'r' && image_key()[23] == 'i');
    assert(minion_type_key()[23] == 'm' && env_key()[23] == 'e' && secrets_key()[23] == 's');
    assert(pipeline_key().len() > 23 && resource_key().len() > 23 && image_key().len() > 23);
    assert(minion_type_key().len() > 23 && env_key().len() > 23 && secrets_key().len() > 23);
    reveal_with_fuel(lookup, 7);
    assert(lookup(a, pipeline_key()) == Some(d.pipeline));
    assert(lookup(a, resource_key()) == Some(d.resource));
    assert(lookup(a, image_key()) == Some(d.image));
    assert(lookup(a, secrets_key()) == Some(secrets_json));
    assert(lookup(a, env_key()) == Some(env_json));
    assert(current_entry(c) =~= Some(with_version(d, version_read(c))));
}

/// A desired watcher is named after its pipeline and its resource.
pub open spec fn well_named(e: ResourceDataView) -> bool {
    e.name == e.pipeline + seq!['-'] + e.resource && e.resource_version == seq!['0']
}

proof fn lemma_desired_from_named(pipeline: Seq<char>, namespace: Seq<char>, prs: Seq<PipelineResource>, rs: Seq<Resource>)
    ensures
        forall|i: int| 0 <= i < desired_from(pipeline, namespace, prs, rs).len() ==> well_named(#[trigger] desired_from(pipeline, namespace, prs, rs)[i]),
    decreases prs.len(),
{
    if prs.len() > 0 {
        lemma_desired_from_named(pipeline, namespace, prs.drop_last(), rs);
        let rest = desired_from(pipeline, namespace, prs.drop_last(), rs);
        let all = desired_from(pipeline, namespace, prs, rs);
        assert forall|i: int| 0 <= i < all.len() implies well_named(#[trigger] all[i]) by {
            if i < rest.len() {
                assert(all[i] == rest[i]);
            }
        }
    }
}

/// Every watcher that the pipelines ask for is named `<pipeline>-<resource>`
/// and asks for resource version "0".
pub proof fn law_desired_watchers_named_after_pipeline_and_resource(ps: Seq<Pipeline>, rs: Seq<Resource>)
    ensures
        forall|i: int| 0 <= i < desired_resources(ps, rs).len() ==> well_named(#[trigger] desired_resources(ps, rs)[i]),
    decreases ps.len(),
{
    if ps.len() > 0 {
        law_desired_watchers_named_after_pipeline_and_resource(ps.drop_last(), rs);
        let p = ps.last();
        let rest = desired_resources(ps.drop_last(), rs);
        let mine = desired_for_pipeline(p, rs);
        if p.metadata.name is Some && p.metadata.namespace is Some {
            lemma_desired_from_named(p.metadata.name->0@, p.metadata.namespace->0@, p.spec.resources@, rs);
        }
        let all = desired_resources(ps, rs);
        assert forall|i: int| 0 <= i < all.len() implies well_named(#[trigger] all[i]) by {
            if i < rest.len() {
                assert(all[i] == rest[i]);
            } else {
                assert(all[i] == mine[i - rest.len()]);
            }
        }
    }
}

proof fn lemma_updates_contain(ds: Seq<ResourceDataView>, cs: Seq<ResourceDataView>, k: int)
    requires
        0 <= k < ds.len(),
        update_of(ds[k], cs) is Some,
    ensures
        updates(ds, cs).contains(update_of(ds[k], cs)->0),
    decreases ds.len(),
{
    let pre = ds.drop_last();
    let u = updates(ds, cs);
    if k < ds.len() - 1 {
        assert(pre[k] == ds[k]);
        lemma_updates_contain(pre, cs, k);
        let i = choose|i: int| 0 <= i < updates(pre, cs).len() && updates(pre, cs)[i] == update_of(ds[k], cs)->0;
        assert(u[i] == updates(pre, cs)[i]);
    } else {
        assert(u[u.len() - 1] == update_of(ds[k], cs)->0);
    }
}

/// Every desired watcher that the first running watcher in its slot (same
/// name, same namespace) does not match in secrets or in environment is
/// updated, when that running watcher belongs to the same pipeline: the update
/// is the desired watcher with the running watcher's resource version. A change
/// of the environment alone, or of the secrets alone, is enough.
pub proof fn law_changed_watcher_is_updated(ds: Seq<ResourceDataView>, cs: Seq<ResourceDataView>, k: int, l: int)
    requires
        0 <= k < ds.len(),
        0 <= l < cs.len(),
        cs[l].name == ds[k].name,
        cs[l].namespace == ds[k].namespace,
        forall|m: int| 0 <= m < l ==> !(cs[m].name == ds[k].name && cs[m].namespace == ds[k].namespace),
        cs[l].pipeline == ds[k].pipeline,
        cs[l].secrets != ds[k].secrets || cs[l].env != ds[k].env,
    ensures
        updates(ds, cs).contains(ResourceDataView {
            image: ds[k].image,
            name: ds[k].name,
            resource: ds[k].resource,
            namespace: ds[k].namespace,
            pipeline: ds[k].pipeline,
            env: ds[k].env,
            secrets: ds[k].secrets,
            resource_version: cs[l].resource_version,
        }),
{
    let d = ds[k];
    lemma_first_match(d, cs);
    assert(same_slot(d, cs[l]));
    let c = first_match(d, cs)->0;
    let l0 = choose|l0: int| 0 <= l0 < cs.len() && cs[l0] == c && (forall|m: int| 0 <= m < l0 ==> !same_slot(d, #[trigger] cs[m]));
    if l0 < l {
        assert(!(cs[l0].name == d.name && cs[l0].namespace == d.namespace));
    } else if l < l0 {
        assert(!same_slot(d, cs[l]));
    }
    assert(c == cs[l]);
    lemma_updates_contain(ds, cs, k);
    assert(update_of(d, cs)->0 == (ResourceDataView {
        image: d.image,
        name: d.name,
        resource: d.resource,
        namespace: d.namespace,
        pipeline: d.pipeline,
        env: d.env,
        secrets: d.secrets,
        resource_version: cs[l].resource_version,
    }));
}

proof fn lemma_pick_first(name: Seq<char>, rs: Seq<Resource>, q: int)
    requires
        0 <= q < rs.len(),
        opt_view(rs[q].metadata.name) == Some(name),
        forall|p: int| 0 <= p < q ==> opt_view(#[trigger] rs[p].metadata.name) != Some(name),
    ensures
        pick(name, rs) == Some(rs[q]@),
    decreases rs.len(),
{
    if q > 0 {
        let rest = rs.drop_first();
        assert(opt_view(rs[0].metadata.name) != Some(name));
        assert forall|p: int| 0 <= p < q - 1 implies opt_view(#[trigger] rest[p].metadata.name) != Some(name) by {
            assert(rest[p] == rs[p + 1]);
        }
        assert(rest[q - 1] == rs[q]);
        lemma_pick_first(name, rest, q - 1);
    }
}

proof fn lemma_desired_from_contains(pipeline: Seq<char>, namespace: Seq<char>, prs: Seq<PipelineResource>, rs: Seq<Resource>, j: int)
    requires
        0 <= j < prs.len(),
        desired_entry(pipeline, namespace, prs[j], rs) is Some,
    ensures
        desired_from(pipeline, namespace, prs, rs).contains(desired_entry(pipeline, namespace, prs[j], rs)->0),
    decreases prs.len(),
{
    let pre = prs.drop_last();
    let all = desired_from(pipeline, namespace, prs, rs);
    let e = desired_entry(pipeline, namespace, prs[j], rs)->0;
    if j < prs.len() - 1 {
        assert(pre[j] == prs[j]);
        lemma_desired_from_contains(pipeline, namespace, pre, rs, j);
        let rest = desired_from(pipeline, namespace, pre, rs);
        let i = choose|i: int| 0 <= i < rest.len() && rest[i] == e;
        assert(all[i] == rest[i]);
    } else {
        assert(all[all.len() - 1] == e);
    }
}

proof fn lemma_desired_contains(ps: Seq<Pipeline>, rs: Seq<Resource>, i: int, x: ResourceDataView)
    requires
        0 <= i < ps.len(),
        desired_for_pipeline(ps[i], rs).contains(x),
    ensures
        desired_resources(ps, rs).contains(x),
    decreases ps.len(),
{
    let pre = ps.drop_last();
    let rest = desired_resources(pre, rs);
    let all = desired_resources(ps, rs);
    if i < ps.len() - 1 {
        assert(pre[i] == ps[i]);
        lemma_desired_contains(pre, rs, i, x);
        let t = choose|t: int| 0 <= t < rest.len() && rest[t] == x;
        assert(all[t] == rest[t]);
    } else {
        let mine = desired_for_pipeline(ps[i], rs);
        let t = choose|t: int| 0 <= t < mine.len() && mine[t] == x;
        assert(all[rest.len() + t] == mine[t]);
    }
}

/// Every triggering resource of every pipeline with a name and a namespace
/// gets a watcher, whatever entries stand before it in the pipeline: where the
/// first resource defined under that name is `rs[q]`, the desired watchers hold
/// `<pipeline>-<resource>` in the pipeline's namespace, with `rs[q]`'s image,
/// environment and secrets and resource version "0".
pub proof fn law_every_triggering_resource_is_watched(ps: Seq<Pipeline>, rs: Seq<Resource>, i: int, j: int, q: int)
    requires
        0 <= i < ps.len(),
        ps[i].metadata.name is Some,
        ps[i].metadata.namespace is Some,
        0 <= j < ps[i].spec.resources@.len(),
        ps[i].spec.resources@[j].trigger,
        0 <= q < rs.len(),
        opt_view(rs[q].metadata.name) == Some(ps[i].spec.resources@[j].name@),
        forall|p: int| 0 <= p < q ==> opt_view(#[trigger] rs[p].metadata.name) != Some(ps[i].spec.resources@[j].name@),
    ensures
        desired_resources(ps, rs).contains(ResourceDataView {
            image: rs[q].spec.image@,
            name: ps[i].metadata.name->0@ + seq!['-'] + ps[i].spec.resources@[j].name@,
            resource: ps[i].spec.resources@[j].name@,
            namespace: ps[i].metadata.namespace->0@,
            pipeline: ps[i].metadata.name->0@,
            env: envs_view(rs[q].spec.env@),
            secrets: secrets_view(rs[q].spec.secrets@),
            resource_version: seq!['0'],
        }),
{
    let p = ps[i];
    let r = p.spec.resources@[j];
    let pn = p.metadata.name->0@;
    let ns = p.metadata.namespace->0@;
    lemma_pick_first(r.name@, rs, q);
    lemma_desired_from_contains(pn, ns, p.spec.resources@, rs, j);
    lemma_desired_contains(ps, rs, i, desired_entry(pn, ns, r, rs)->0);
}

/// The manifest of a watcher runs exactly one container: named after the
/// watcher, running its image with `./version`, with the watcher's environment
/// and a read-only mount for each of its secrets; the pod has a volume for each
/// secret.
pub proof fn law_watcher_pod_carries_env_and_secrets(d: ResourceDataView, env_json: Seq<char>, secrets_json: Seq<char>)
    ensures
        resource_watcher_body(params_for(d, env_json, secrets_json)).containers.len() == 1,
        resource_watcher_body(params_for(d, env_json, secrets_json)).containers[0].name == d.name,
        resource_watcher_body(params_for(d, env_json, secrets_json)).containers[0].image == d.image,
        resource_watcher_body(params_for(d, env_json, secrets_json)).containers[0].env == d.env,
        resource_watcher_body(params_for(d, env_json, secrets_json)).containers[0].volume_mounts.len() == d.secrets.len(),
        forall|k: int| 0 <= k < d.secrets.len() ==> {
            let m = #[trigger] resource_watcher_body(params_for(d, env_json, secrets_json)).containers[0].volume_mounts[k];
            &&& m.name == d.secrets[k].name
            &&& m.mount_path == d.secrets[k].mount_path
            &&& m.read_only
        },
        resource_watcher_body(params_for(d, env_json, secrets_json)).volumes.len() == d.secrets.len(),
        forall|k: int| 0 <= k < d.secrets.len() ==> {
            let v = #[trigger] resource_watcher_body(params_for(d, env_json, secrets_json)).volumes[k];
            &&& v.name == d.secrets[k].name
            &&& v.secret_name == d.secrets[k].name
            &&& v.items.len() == d.secrets[k].keys.len()
        },
{
    assert(mounts_for(d.secrets).len() == d.secrets.len());
    assert(volumes_for(d.secrets).len() == d.secrets.len());
}

} // verus!
