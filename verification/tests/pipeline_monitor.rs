use minion::meta::{Annotation, ObjectMeta};
use minion::pipeline_monitor::cron::CronJob;
use minion::pipeline_monitor::operations::{
    get_current_resources, get_desired_resources, get_operations, pick_resource, ResourceData,
};
use minion::pipeline_monitor::pipelines::{Pipeline, PipelineSpec, Resource as PipelineResource, Step};
use minion::pipeline_monitor::resource_watcher::{
    get_resource_watcher_body, make_volume_mounts, make_volumes, watcher_call_outcome,
    watcher_manifest, ApiCallResult, ResourceWatcherParams, WatcherOutcome,
};
use minion::pipeline_monitor::resources::{EnvVar, Resource, ResourceSpec, Secret, SecretKey};

fn s(x: &str) -> String {
    x.to_string()
}

fn meta(name: Option<&str>, namespace: Option<&str>) -> ObjectMeta {
    ObjectMeta {
        name: name.map(s),
        namespace: namespace.map(s),
        annotations: None,
        resource_version: None,
    }
}

fn env(name: &str, value: &str) -> EnvVar {
    EnvVar { name: s(name), value: s(value) }
}

fn secret(name: &str, mount: &str, keys: &[(&str, &str)]) -> Secret {
    Secret {
        name: s(name),
        mount_path: s(mount),
        keys: keys.iter().map(|(k, p)| SecretKey { key: s(k), path: s(p) }).collect(),
    }
}

fn resource(name: &str, image: &str, secrets: Vec<Secret>, env: Vec<EnvVar>) -> Resource {
    Resource { metadata: meta(Some(name), Some("ns")), spec: ResourceSpec { image: s(image), secrets, env } }
}

fn pipeline(name: Option<&str>, namespace: Option<&str>, resources: &[(&str, bool)]) -> Pipeline {
    Pipeline {
        metadata: meta(name, namespace),
        spec: PipelineSpec {
            resources: resources.iter().map(|(n, t)| PipelineResource { name: s(n), trigger: *t }).collect(),
            steps: vec![Step {
                name: s("build"),
                resource: None,
                action: None,
                path: None,
                image: Some(s("builder")),
                command: Some(vec![s("make")]),
            }],
        },
    }
}

fn annotation(key: &str, value: &str) -> Annotation {
    Annotation { key: s(key), value: s(value) }
}

fn cron(
    name: &str,
    namespace: &str,
    pipeline: &str,
    resource: &str,
    image: &str,
    rv: Option<&str>,
    secrets: Vec<Secret>,
    env: Vec<EnvVar>,
) -> CronJob {
    CronJob {
        metadata: Some(ObjectMeta {
            name: Some(s(name)),
            namespace: Some(s(namespace)),
            annotations: Some(vec![
                annotation("minion.ponglehub.co.uk/env", "[]"),
                annotation("minion.ponglehub.co.uk/image", image),
                annotation("minion.ponglehub.co.uk/pipeline", pipeline),
                annotation("minion.ponglehub.co.uk/resource", resource),
                annotation("minion.ponglehub.co.uk/secrets", "[]"),
            ]),
            resource_version: rv.map(s),
        }),
        decoded_secrets: Some(secrets),
        decoded_env: Some(env),
    }
}

fn names(rs: &[ResourceData]) -> Vec<String> {
    rs.iter().map(|r| r.name.clone()).collect()
}

#[test]
fn pick_resource_finds_first_by_name() {
    let rs = vec![
        Resource { metadata: meta(None, None), spec: ResourceSpec { image: s("x"), secrets: vec![], env: vec![] } },
        resource("git", "git-image", vec![], vec![]),
        resource("git", "other-image", vec![], vec![]),
    ];
    match pick_resource(&s("git"), &rs) {
        Ok(r) => assert_eq!(r.spec.image, "git-image"),
        Err(_) => panic!("expected a resource"),
    }
    match pick_resource(&s("docker"), &rs) {
        Ok(_) => panic!("expected no resource"),
        Err(e) => {
            assert_eq!(e.name, "docker");
            assert_eq!(e.message(), "Failed to find resource: docker");
        },
    }
}

#[test]
fn desired_resources_follow_pipelines() {
    let rs = vec![
        resource("git", "git-image", vec![secret("creds", "/creds", &[("token", "token.txt")])], vec![env("A", "1")]),
        resource("docker", "docker-image", vec![], vec![]),
    ];
    let ps = vec![
        pipeline(Some("build"), Some("ci"), &[("git", true), ("docker", false), ("missing", true)]),
        pipeline(None, Some("ci"), &[("git", true)]),
        pipeline(Some("nonamespace"), None, &[("git", true)]),
        pipeline(Some("deploy"), Some("cd"), &[("docker", true), ("git", true)]),
    ];
    let desired = get_desired_resources(ps, rs);
    assert_eq!(names(&desired), vec![s("build-git"), s("deploy-docker"), s("deploy-git")]);
    let first = &desired[0];
    assert_eq!(first.image, "git-image");
    assert_eq!(first.resource, "git");
    assert_eq!(first.namespace, "ci");
    assert_eq!(first.pipeline, "build");
    assert_eq!(first.resource_version, "0");
    assert!(first.secrets == vec![secret("creds", "/creds", &[("token", "token.txt")])]);
    assert!(first.env == vec![env("A", "1")]);
    assert_eq!(desired[1].namespace, "cd");
}

#[test]
fn desired_resources_empty_without_pipelines() {
    let desired = get_desired_resources(vec![], vec![resource("git", "g", vec![], vec![])]);
    assert!(desired.is_empty());
}

#[test]
fn current_resources_read_annotations() {
    let crons = vec![
        cron("build-git", "ci", "build", "git", "git-image", Some("42"), vec![], vec![env("A", "1")]),
        cron("deploy-git", "cd", "deploy", "git", "git-image", None, vec![], vec![]),
    ];
    let current = get_current_resources(crons);
    assert_eq!(current.len(), 2);
    assert_eq!(current[0].name, "build-git");
    assert_eq!(current[0].namespace, "ci");
    assert_eq!(current[0].pipeline, "build");
    assert_eq!(current[0].resource, "git");
    assert_eq!(current[0].image, "git-image");
    assert_eq!(current[0].resource_version, "42");
    assert!(current[0].env == vec![env("A", "1")]);
    assert_eq!(current[1].resource_version, "0");
}

#[test]
fn current_resources_skip_incomplete_crons() {
    let mut no_meta = cron("a", "ns", "p", "r", "i", None, vec![], vec![]);
    no_meta.metadata = None;
    let mut no_name = cron("a", "ns", "p", "r", "i", None, vec![], vec![]);
    no_name.metadata.as_mut().unwrap().name = None;
    let mut no_namespace = cron("a", "ns", "p", "r", "i", None, vec![], vec![]);
    no_namespace.metadata.as_mut().unwrap().namespace = None;
    let mut no_annotations = cron("a", "ns", "p", "r", "i", None, vec![], vec![]);
    no_annotations.metadata.as_mut().unwrap().annotations = None;
    let mut no_image = cron("a", "ns", "p", "r", "i", None, vec![], vec![]);
    no_image.metadata.as_mut().unwrap().annotations.as_mut().unwrap().retain(|a| a.key != "minion.ponglehub.co.uk/image");
    let mut no_secrets = cron("a", "ns", "p", "r", "i", None, vec![], vec![]);
    no_secrets.metadata.as_mut().unwrap().annotations.as_mut().unwrap().retain(|a| a.key != "minion.ponglehub.co.uk/secrets");
    let mut bad_secrets = cron("a", "ns", "p", "r", "i", None, vec![], vec![]);
    bad_secrets.decoded_secrets = None;
    let mut bad_env = cron("a", "ns", "p", "r", "i", None, vec![], vec![]);
    bad_env.decoded_env = None;
    let good = cron("good", "ns", "p", "r", "i", None, vec![], vec![]);
    let current = get_current_resources(vec![
        no_meta, no_name, no_namespace, no_annotations, no_image, no_secrets, bad_secrets, bad_env, good,
    ]);
    assert_eq!(names(&current), vec![s("good")]);
}

#[test]
fn operations_add_update_remove() {
    let rs = vec![
        resource("git", "git-image", vec![secret("creds", "/creds", &[])], vec![]),
        resource("docker", "docker-image", vec![], vec![env("B", "2")]),
        resource("helm", "helm-image", vec![], vec![]),
    ];
    let ps = vec![pipeline(Some("build"), Some("ci"), &[("git", true), ("docker", true), ("helm", true)])];
    let crons = vec![
        // build-git runs with other secrets: updated with its resource version
        cron("build-git", "ci", "build", "git", "git-image", Some("7"), vec![], vec![]),
        // build-docker runs as desired: nothing to do
        cron("build-docker", "ci", "build", "docker", "docker-image", Some("8"), vec![], vec![env("B", "2")]),
        // an old watcher: removed
        cron("old-git", "ci", "old", "git", "git-image", Some("9"), vec![], vec![]),
    ];
    let ops = get_operations(ps, rs, crons);
    assert_eq!(names(&ops.to_add), vec![s("build-helm")]);
    assert_eq!(names(&ops.to_update), vec![s("build-git")]);
    assert_eq!(ops.to_update[0].resource_version, "7");
    assert!(ops.to_update[0].secrets == vec![secret("creds", "/creds", &[])]);
    assert_eq!(names(&ops.to_remove), vec![s("old-git")]);
    assert_eq!(ops.to_remove[0].resource_version, "9");
}

#[test]
fn operations_foreign_pipeline_blocks_slot() {
    let rs = vec![resource("git", "git-image", vec![], vec![env("A", "1")])];
    let ps = vec![pipeline(Some("build"), Some("ci"), &[("git", true)])];
    // the slot build-git in ci is held by a watcher of another pipeline
    let crons = vec![cron("build-git", "ci", "other", "git", "git-image", Some("3"), vec![], vec![])];
    let ops = get_operations(ps, rs, crons);
    assert!(ops.to_add.is_empty());
    assert!(ops.to_update.is_empty());
    assert_eq!(names(&ops.to_remove), vec![s("build-git")]);
}

#[test]
fn operations_same_name_other_namespace_is_added() {
    let rs = vec![resource("git", "git-image", vec![], vec![])];
    let ps = vec![pipeline(Some("build"), Some("ci"), &[("git", true)])];
    let crons = vec![cron("build-git", "elsewhere", "build", "git", "git-image", None, vec![], vec![])];
    let ops = get_operations(ps, rs, crons);
    assert_eq!(names(&ops.to_add), vec![s("build-git")]);
    assert_eq!(names(&ops.to_remove), vec![s("build-git")]);
    assert_eq!(ops.to_remove[0].namespace, "elsewhere");
}

#[test]
fn settled_state_gives_no_operations() {
    let rs = vec![
        resource("git", "git-image", vec![secret("creds", "/c", &[("k", "p")])], vec![env("A", "1")]),
        resource("docker", "docker-image", vec![], vec![]),
    ];
    let ps = vec![pipeline(Some("build"), Some("ci"), &[("git", true), ("docker", true)])];
    let crons = vec![
        cron("build-docker", "ci", "build", "docker", "docker-image", Some("5"), vec![], vec![]),
        cron("build-git", "ci", "build", "git", "git-image", Some("4"), vec![secret("creds", "/c", &[("k", "p")])], vec![env("A", "1")]),
    ];
    let ops = get_operations(ps, rs, crons);
    assert!(ops.to_add.is_empty());
    assert!(ops.to_update.is_empty());
    assert!(ops.to_remove.is_empty());
}

#[test]
fn image_change_alone_is_no_update() {
    let rs = vec![resource("git", "new-image", vec![], vec![])];
    let ps = vec![pipeline(Some("build"), Some("ci"), &[("git", true)])];
    let crons = vec![cron("build-git", "ci", "build", "git", "old-image", None, vec![], vec![])];
    let ops = get_operations(ps, rs, crons);
    assert!(ops.to_add.is_empty() && ops.to_update.is_empty() && ops.to_remove.is_empty());
}

#[test]
fn resource_data_display() {
    let r = ResourceData {
        image: s("img"),
        name: s("build-git"),
        resource: s("git"),
        namespace: s("ci"),
        pipeline: s("build"),
        env: vec![],
        secrets: vec![],
        resource_version: s("0"),
    };
    assert_eq!(r.to_display_string(), "build-git [ns: ci, img: img, pl: build]");
}

#[test]
fn volumes_and_mounts_from_secrets() {
    let secrets = vec![
        secret("creds", "/creds", &[("token", "token.txt"), ("user", "user.txt")]),
        secret("keys", "/keys", &[]),
    ];
    let mounts = make_volume_mounts(&secrets);
    assert_eq!(mounts.len(), 2);
    assert_eq!(mounts[0].name, "creds");
    assert_eq!(mounts[0].mount_path, "/creds");
    assert!(mounts[0].read_only);
    assert_eq!(mounts[1].mount_path, "/keys");
    let volumes = make_volumes(&secrets);
    assert_eq!(volumes.len(), 2);
    assert_eq!(volumes[0].name, "creds");
    assert_eq!(volumes[0].secret.secret_name, "creds");
    assert_eq!(volumes[0].secret.items.len(), 2);
    assert_eq!(volumes[0].secret.items[1].key, "user");
    assert_eq!(volumes[0].secret.items[1].path, "user.txt");
    assert!(volumes[1].secret.items.is_empty());
}

#[test]
fn watcher_body_carries_annotations_and_pod() {
    let secrets = vec![secret("creds", "/creds", &[("token", "token.txt")])];
    let params = ResourceWatcherParams {
        name: s("build-git"),
        image: s("git-image"),
        pipeline: s("build"),
        resource: s("git"),
        env: vec![env("A", "1")],
        secrets: secrets.clone(),
        volumes: make_volumes(&secrets),
        volume_mounts: make_volume_mounts(&secrets),
        resource_version: s("12"),
        env_json: s("[{\"name\":\"A\",\"value\":\"1\"}]"),
        secrets_json: s("[]"),
    };
    let m = get_resource_watcher_body(&params);
    assert_eq!(m.api_version, "batch/v1beta1");
    assert_eq!(m.kind, "CronJob");
    assert_eq!(m.name, "build-git");
    assert_eq!(m.resource_version.as_deref(), Some("12"));
    let labels: Vec<(String, String)> = m.labels.iter().map(|a| (a.key.clone(), a.value.clone())).collect();
    assert_eq!(labels, vec![
        (s("pipeline"), s("build")),
        (s("resource"), s("git")),
        (s("minion-type"), s("resource-watcher")),
    ]);
    let annotations: Vec<(String, String)> = m.annotations.iter().map(|a| (a.key.clone(), a.value.clone())).collect();
    assert_eq!(annotations, vec![
        (s("minion.ponglehub.co.uk/pipeline"), s("build")),
        (s("minion.ponglehub.co.uk/resource"), s("git")),
        (s("minion.ponglehub.co.uk/image"), s("git-image")),
        (s("minion.ponglehub.co.uk/minion-type"), s("resource-watcher")),
        (s("minion.ponglehub.co.uk/env"), s("[{\"name\":\"A\",\"value\":\"1\"}]")),
        (s("minion.ponglehub.co.uk/secrets"), s("[]")),
    ]);
    assert_eq!(m.schedule, "* * * * *");
    assert_eq!(m.concurrency_policy.as_deref(), Some("Forbid"));
    assert_eq!(m.pod_labels[0].key, "app");
    assert_eq!(m.pod_labels[0].value, "build-git");
    assert_eq!(m.containers.len(), 1);
    assert_eq!(m.containers[0].name, "build-git");
    assert_eq!(m.containers[0].image, "git-image");
    assert_eq!(m.containers[0].command, vec![s("./version")]);
    assert!(m.containers[0].env == vec![env("A", "1")]);
    assert_eq!(m.containers[0].volume_mounts[0].mount_path, "/creds");
    assert_eq!(m.volumes[0].secret.items[0].path, "token.txt");
    assert_eq!(m.restart_policy, "Never");
}

#[test]
fn written_watcher_reads_back() {
    let data = ResourceData {
        image: s("git-image"),
        name: s("build-git"),
        resource: s("git"),
        namespace: s("ci"),
        pipeline: s("build"),
        env: vec![env("A", "1")],
        secrets: vec![secret("creds", "/c", &[("k", "p")])],
        resource_version: s("0"),
    };
    let m = watcher_manifest(&data, &s("ENV"), &s("SECRETS"));
    let cron = CronJob {
        metadata: Some(ObjectMeta {
            name: Some(m.name.clone()),
            namespace: Some(s("ci")),
            annotations: Some(m.annotations.clone()),
            resource_version: Some(s("77")),
        }),
        decoded_secrets: Some(data.secrets.clone()),
        decoded_env: Some(data.env.clone()),
    };
    let back = get_current_resources(vec![cron]);
    assert_eq!(back.len(), 1);
    assert_eq!(back[0].name, data.name);
    assert_eq!(back[0].namespace, data.namespace);
    assert_eq!(back[0].pipeline, data.pipeline);
    assert_eq!(back[0].resource, data.resource);
    assert_eq!(back[0].image, data.image);
    assert!(back[0].secrets == data.secrets);
    assert!(back[0].env == data.env);
    assert_eq!(back[0].resource_version, "77");
}

#[test]
fn watcher_call_outcomes() {
    assert!(matches!(watcher_call_outcome(&ApiCallResult::Succeeded), WatcherOutcome::Done));
    assert!(matches!(watcher_call_outcome(&ApiCallResult::ApiError(409)), WatcherOutcome::AlreadyExists));
    assert!(matches!(watcher_call_outcome(&ApiCallResult::ApiError(500)), WatcherOutcome::Failed));
    assert!(matches!(watcher_call_outcome(&ApiCallResult::ApiError(404)), WatcherOutcome::Failed));
    assert!(matches!(watcher_call_outcome(&ApiCallResult::OtherError), WatcherOutcome::Failed));
}

#[test]
fn secret_equality_compares_keys() {
    let a = secret("creds", "/c", &[("k", "p")]);
    let b = secret("creds", "/c", &[("k", "q")]);
    let c = secret("creds", "/c", &[("k", "p")]);
    assert!(a != b);
    assert!(a == c);
    assert!(env("A", "1") != env("A", "2"));
    assert!(SecretKey { key: s("k"), path: s("p") } == SecretKey { key: s("k"), path: s("p") });
}
