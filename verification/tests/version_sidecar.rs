use minion::meta::ObjectMeta;
use minion::version_sidecar::api::{get_version_body, version_data_from_items, VersionData};
use minion::version_sidecar::inputs::{
    inputs_from_env, version_exists, version_from_contents, InputError, VersionFileError, VersionInputs,
};
use minion::version_sidecar::state::{Version, VersionSpec};

fn s(x: &str) -> String {
    x.to_string()
}

fn data(ns: &str, resource: &str, pipeline: &str, version: &str) -> VersionData {
    VersionData { namespace: s(ns), resource: s(resource), pipeline: s(pipeline), version: s(version) }
}

fn inputs() -> VersionInputs {
    VersionInputs { pipeline: s("build"), resource: s("git"), namespace: s("ci") }
}

#[test]
fn inputs_need_all_variables() {
    match inputs_from_env(None, Some(s("r")), Some(s("p"))) {
        Err(e) => {
            assert!(matches!(e, InputError::MissingNamespace));
            assert_eq!(e.message(), "Missing required environment variable NAMESPACE");
        },
        Ok(_) => panic!("expected an error"),
    }
    match inputs_from_env(Some(s("n")), None, None) {
        Err(e) => {
            assert!(matches!(e, InputError::MissingResource));
            assert_eq!(e.message(), "Missing required environment variable RESOURCE");
        },
        Ok(_) => panic!("expected an error"),
    }
    match inputs_from_env(Some(s("n")), Some(s("r")), None) {
        Err(e) => {
            assert!(matches!(e, InputError::MissingPipeline));
            assert_eq!(e.message(), "Missing required environment variable PIPELINE");
        },
        Ok(_) => panic!("expected an error"),
    }
    match inputs_from_env(Some(s("n")), Some(s("r")), Some(s("p"))) {
        Ok(i) => {
            assert_eq!(i.namespace, "n");
            assert_eq!(i.resource, "r");
            assert_eq!(i.pipeline, "p");
        },
        Err(_) => panic!("expected inputs"),
    }
}

#[test]
fn version_is_trimmed_file_text() {
    match version_from_contents("  1.2.3\n") {
        Ok(v) => assert_eq!(v, "1.2.3"),
        Err(_) => panic!("expected a version"),
    }
    match version_from_contents("\t v 1 \r\n\u{a0}") {
        Ok(v) => assert_eq!(v, "v 1"),
        Err(_) => panic!("expected a version"),
    }
    match version_from_contents("abc") {
        Ok(v) => assert_eq!(v, "abc"),
        Err(_) => panic!("expected a version"),
    }
}

#[test]
fn blank_version_file_is_refused() {
    for text in ["", "   ", "\n\t \n"] {
        match version_from_contents(text) {
            Err(e) => {
                assert!(matches!(e, VersionFileError::Empty));
                assert_eq!(e.message(), "Version number must be at least one character long");
            },
            Ok(_) => panic!("expected an error"),
        }
    }
}

#[test]
fn trimmed_version_reads_back_unchanged() {
    let first = version_from_contents("\n 2.0.1 \n").ok().unwrap();
    let second = version_from_contents(&first).ok().unwrap();
    assert_eq!(first, second);
}

#[test]
fn exists_needs_all_four_to_match() {
    let versions = vec![
        data("ci", "git", "build", "1.0"),
        data("cd", "git", "build", "2.0"),
        data("ci", "git", "deploy", "2.0"),
        data("ci", "docker", "build", "2.0"),
    ];
    assert!(version_exists(versions, "1.0", &inputs()));
    let versions = vec![
        data("cd", "git", "build", "2.0"),
        data("ci", "git", "deploy", "2.0"),
        data("ci", "docker", "build", "2.0"),
    ];
    assert!(!version_exists(versions, "2.0", &inputs()));
    assert!(!version_exists(vec![], "2.0", &inputs()));
}

#[test]
fn version_body_is_named_after_all_three() {
    let v = get_version_body(&s("git"), &s("build"), &s("1.0"));
    assert_eq!(v.api_version, "minion.ponglehub.com/v1");
    assert_eq!(v.kind, "Version");
    assert_eq!(v.metadata.name.as_deref(), Some("git-build-1.0"));
    assert!(v.metadata.namespace.is_none());
    assert_eq!(v.spec.resource, "git");
    assert_eq!(v.spec.pipeline, "build");
    assert_eq!(v.spec.version, "1.0");
}

#[test]
fn listed_versions_without_namespace_are_skipped() {
    let item = |ns: Option<&str>, version: &str| Version {
        api_version: s("minion.ponglehub.com/v1"),
        kind: s("Version"),
        metadata: ObjectMeta { name: Some(s("n")), namespace: ns.map(s), annotations: None, resource_version: None },
        spec: VersionSpec { resource: s("git"), pipeline: s("build"), version: s(version) },
    };
    let out = version_data_from_items(vec![item(Some("ci"), "1"), item(None, "2"), item(Some("cd"), "3")]);
    let got: Vec<(String, String)> = out.iter().map(|d| (d.namespace.clone(), d.version.clone())).collect();
    assert_eq!(got, vec![(s("ci"), s("1")), (s("cd"), s("3"))]);
    assert_eq!(out[0].resource, "git");
    assert_eq!(out[0].pipeline, "build");
}

#[test]
fn version_spec_display_and_equality() {
    let a = VersionSpec { resource: s("git"), pipeline: s("build"), version: s("1.0") };
    let b = VersionSpec { resource: s("git"), pipeline: s("build"), version: s("1.1") };
    let c = VersionSpec { resource: s("git"), pipeline: s("build"), version: s("1.0") };
    assert_eq!(a.to_display_string(), "git - 1.0 (build)");
    assert!(a != b);
    assert!(a == c);
}
