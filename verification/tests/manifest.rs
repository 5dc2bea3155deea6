use semver::VersionReq;
use std::collections::HashMap;
use volta::manifest::{ManifestError, RawManifest, RawToolchain};

fn deps() -> HashMap<String, String> {
    let mut d = HashMap::new();
    d.insert("cowsay".to_string(), "^1.4.0".to_string());
    d
}

#[test]
fn manifest_without_toolchain_is_none() {
    let raw = RawManifest { notion: None, dependencies: deps() };
    assert!(raw.into_manifest().unwrap().is_none());
}

#[test]
fn manifest_parses_node_and_yarn() {
    let raw = RawManifest {
        notion: Some(RawToolchain { node: "^10.2".to_string(), yarn: Some("1.2.42".to_string()) }),
        dependencies: deps(),
    };
    let m = raw.into_manifest().unwrap().unwrap();
    assert_eq!(m.node, VersionReq::parse("^10.2").unwrap());
    assert_eq!(m.yarn, Some(VersionReq::parse("1.2.42").unwrap()));
    assert_eq!(m.dependencies, deps());
}

#[test]
fn manifest_without_yarn() {
    let raw = RawManifest {
        notion: Some(RawToolchain { node: ">=8, <11".to_string(), yarn: None }),
        dependencies: HashMap::new(),
    };
    let m = raw.into_manifest().unwrap().unwrap();
    assert_eq!(m.node, VersionReq::parse(">=8, <11").unwrap());
    assert_eq!(m.yarn, None);
    assert!(m.dependencies.is_empty());
}

#[test]
fn manifest_invalid_node_errors() {
    let raw = RawManifest {
        notion: Some(RawToolchain { node: "not a version".to_string(), yarn: Some("x".to_string()) }),
        dependencies: deps(),
    };
    assert_eq!(
        raw.into_manifest().unwrap_err(),
        ManifestError::InvalidVersionRequirement { text: "not a version".to_string() }
    );
}

#[test]
fn manifest_invalid_yarn_errors() {
    let raw = RawManifest {
        notion: Some(RawToolchain { node: "10.0.0".to_string(), yarn: Some("*.*".to_string()) }),
        dependencies: deps(),
    };
    assert_eq!(
        raw.into_manifest().unwrap_err(),
        ManifestError::InvalidVersionRequirement { text: "*.*".to_string() }
    );
}
