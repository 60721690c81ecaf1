use minion::meta::ObjectMeta;
use minion::pipeline_monitor::cron::CronJob;
use minion::pipeline_monitor_legacy::operations::{
    desired_resources, get_operations, pick_resource, watcher_manifest, Operations,
};
use minion::pipeline_monitor_legacy::pipelines::{KubePipeline, Pipeline, Resource as PipelineResource, Secret, SecretKey};
use minion::pipeline_monitor_legacy::resources::{Resource, ResourceSpec};
use std::collections::BTreeMap;

fn s(x: &str) -> String {
    x.to_string()
}

fn meta(name: Option<&str>, namespace: Option<&str>) -> ObjectMeta {
    ObjectMeta { name: name.map(s), namespace: namespace.map(s), annotations: None, resource_version: None }
}

fn resource(name: &str, image: &str) -> Resource {
    Resource { metadata: meta(Some(name), None), spec: ResourceSpec { image: s(image), additional_vars: vec![s("X")] } }
}

fn pipeline(name: &str, namespace: Option<&str>, resources: &[(&str, bool)]) -> KubePipeline {
    KubePipeline {
        metadata: meta(Some(name), namespace),
        spec: Pipeline {
            resources: resources
                .iter()
                .map(|(n, t)| PipelineResource {
                    name: s(n),
                    trigger: *t,
                    secrets: vec![Secret { name: s("creds"), keys: vec![SecretKey { key: s("k"), path: s("p") }] }],
                    env: BTreeMap::new(),
                })
                .collect(),
            steps: vec![],
        },
    }
}

#[test]
fn empty_operations() {
    let ops = Operations::empty();
    assert!(ops.to_add.is_empty() && ops.to_update.is_empty() && ops.to_remove.is_empty());
}

#[test]
fn legacy_pick_resource() {
    let rs = vec![resource("git", "git-image"), resource("docker", "docker-image")];
    match pick_resource(&s("docker"), &rs) {
        Ok(r) => {
            assert_eq!(r.spec.image, "docker-image");
            assert_eq!(r.spec.additional_vars, vec![s("X")]);
        },
        Err(_) => panic!("expected a resource"),
    }
    match pick_resource(&s("helm"), &rs) {
        Ok(_) => panic!("expected no resource"),
        Err(e) => {
            assert_eq!(e.name, "helm");
            assert_eq!(e.message(), "Failed to find resource: helm");
        },
    }
}

#[test]
fn legacy_desired_resources() {
    let rs = vec![resource("git", "git-image"), resource("docker", "docker-image")];
    let ps = vec![
        pipeline("build", Some("ci"), &[("git", true), ("docker", false), ("helm", true)]),
        pipeline("lonely", None, &[("git", true)]),
        pipeline("deploy", Some("cd"), &[("docker", true)]),
    ];
    let desired = desired_resources(&ps, &rs);
    let got: Vec<(String, String, String, String)> = desired
        .iter()
        .map(|d| (d.name.clone(), d.image.clone(), d.namespace.clone(), d.pipeline.clone()))
        .collect();
    assert_eq!(got, vec![
        (s("build-git"), s("git-image"), s("ci"), s("build")),
        (s("deploy-docker"), s("docker-image"), s("cd"), s("deploy")),
    ]);
}

#[test]
fn legacy_operations_are_empty() {
    let rs = vec![resource("git", "git-image")];
    let ps = vec![pipeline("build", Some("ci"), &[("git", true)])];
    let crons = vec![CronJob { metadata: None, decoded_secrets: None, decoded_env: None }];
    let ops = get_operations(ps, rs, crons);
    assert!(ops.to_add.is_empty() && ops.to_update.is_empty() && ops.to_remove.is_empty());
}

#[test]
fn legacy_watcher_manifest() {
    let m = watcher_manifest(&s("build-git"), &s("git-image"), &s("build"));
    assert_eq!(m.name, "build-git");
    assert!(m.resource_version.is_none());
    assert!(m.concurrency_policy.is_none());
    assert!(m.annotations.is_empty());
    let labels: Vec<(String, String)> = m.labels.iter().map(|a| (a.key.clone(), a.value.clone())).collect();
    assert_eq!(labels, vec![
        (s("pipeline"), s("build")),
        (s("resource"), s("resource-name")),
        (s("minion-type"), s("resource-watcher")),
    ]);
    assert_eq!(m.containers[0].image, "git-image");
    assert_eq!(m.containers[0].command, vec![s("./version")]);
    assert!(m.volumes.is_empty());
    assert_eq!(m.restart_policy, "Never");
}
