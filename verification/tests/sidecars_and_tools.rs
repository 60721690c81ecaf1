use minion::file_inspector::{get_entries, is_listed_path, HttpMethod, CORS};
use minion::meta::ObjectMeta;
use minion::minion_controller::{self, KubeTask, Task, TaskEvent, TaskMetadata};
use minion::resource_sidecar::{addVersion, run_mode, Mode};
use minion::version_monitor::{self, found_version, KubeVersion, Version, VersionEvent};

fn s(x: &str) -> String {
    x.to_string()
}

#[test]
fn modes_from_their_names() {
    assert!(matches!(Mode::from_value("Version"), Ok(Mode::Version)));
    assert!(matches!(Mode::from_value("Load"), Ok(Mode::Load)));
    assert!(matches!(Mode::from_value("Push"), Ok(Mode::Push)));
    match Mode::from_value("version") {
        Err(m) => assert_eq!(m, "Mode string version not recognised"),
        Ok(_) => panic!("expected an error"),
    }
    match Mode::from_value("") {
        Err(m) => assert_eq!(m, "Mode string  not recognised"),
        Ok(_) => panic!("expected an error"),
    }
}

#[test]
fn every_mode_succeeds() {
    assert!(addVersion().is_ok());
    assert!(run_mode(&Mode::Version).is_ok());
    assert!(run_mode(&Mode::Load).is_ok());
    assert!(run_mode(&Mode::Push).is_ok());
}

#[test]
fn entries_relative_to_data_path() {
    let out = get_entries(vec![s("/data/a.txt"), s("/data/sub/b.txt"), s("/data/data/c"), s("/other/d")], "/data");
    assert_eq!(out, vec![s("a.txt"), s("sub/b.txt"), s("data/c"), s("/other/d")]);
    // every leading occurrence goes, as with trim_start_matches
    let out = get_entries(vec![s("x/x/x/y"), s("x"), s("")], "x");
    assert_eq!(out, vec![s("y"), s("x"), s("")]);
}

#[test]
fn paths_with_dot_dot_are_not_listed() {
    assert!(is_listed_path("/data/a.txt"));
    assert!(is_listed_path("/data/.hidden"));
    assert!(!is_listed_path("/data/../etc"));
    assert!(!is_listed_path("/data/a..b"));
    assert!(is_listed_path(""));
}

#[test]
fn cors_only_for_get_and_post() {
    let cors = CORS {};
    assert!(cors.applies_to(&HttpMethod::Get));
    assert!(cors.applies_to(&HttpMethod::Post));
    assert!(!cors.applies_to(&HttpMethod::Put));
    assert!(!cors.applies_to(&HttpMethod::Options));
    assert!(!cors.applies_to(&HttpMethod::Delete));
    assert!(!cors.applies_to(&HttpMethod::Head));
}

fn version(ns: Option<&str>) -> KubeVersion {
    KubeVersion {
        metadata: ObjectMeta { name: Some(s("v")), namespace: ns.map(s), annotations: None, resource_version: None },
        spec: Version { resource: s("git"), pipeline: s("build"), version: s("1.0") },
    }
}

#[test]
fn version_reports() {
    assert_eq!(found_version(&version(Some("ci"))), "Found Version in namespace 'ci': build -> git:1.0");
    assert_eq!(
        version_monitor::handle(&VersionEvent::Added(version(Some("ci")))),
        "Added a version to namespace 'ci': build -> git:1.0"
    );
    assert_eq!(
        version_monitor::handle(&VersionEvent::Modified(version(Some("ci")))),
        "Updated a version in namespace 'ci': build -> git:1.0"
    );
    assert_eq!(
        version_monitor::handle(&VersionEvent::Deleted(version(Some("ci")))),
        "Deleted a version from namespace 'ci': build -> git:1.0"
    );
    assert_eq!(version_monitor::handle(&VersionEvent::Other), "another event");
}

fn task(ns: Option<&str>) -> KubeTask {
    KubeTask {
        metadata: TaskMetadata { name: s("my-task"), namespace: ns.map(s) },
        spec: Task { pipeline: s("parent-pipeline"), image: s("task-image"), inputs: Some(vec![s("input1")]) },
    }
}

#[test]
fn task_reports() {
    assert_eq!(minion_controller::found_task(&task(Some("ci"))), "Found Task ci:my-task from pipeline 'parent-pipeline'");
    assert_eq!(
        minion_controller::handle(&TaskEvent::Added(task(Some("ci")))),
        "Added a task ci:my-task from pipeline 'parent-pipeline'"
    );
    assert_eq!(minion_controller::handle(&TaskEvent::Deleted(task(None))), "Deleted a task my-task");
    assert_eq!(minion_controller::handle(&TaskEvent::Other), "another event");
}
