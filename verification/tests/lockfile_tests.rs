use cnp::lockfile::get_required_dependencies;

fn sorted(mut v: Vec<String>) -> Vec<String> {
    v.sort();
    v
}

fn names(v: &[&str]) -> Vec<String> {
    v.iter().map(|s| s.to_string()).collect()
}

#[test]
fn test_get_required_dependencies_single_package_json() {
    let manifest = r#"{
            "name": "example-package",
            "version": "1.0.0",
            "dependencies": {
                "dep1": "^1.0.0"
            },
            "devDependencies": {
                "test-dep": "^2.0.0"
            }
        }"#
    .to_string();
    let with_dev = get_required_dependencies(Some(&manifest), None, None, None, None, true);
    assert!(!with_dev.ambiguous);
    assert_eq!(with_dev.names, names(&["test-dep"]));
    assert!(
        !with_dev.names.contains(&"dep1".to_string()),
        "declared dependencies must not enter the required set"
    );
    let without_dev = get_required_dependencies(Some(&manifest), None, None, None, None, false);
    assert_eq!(without_dev.names, Vec::<String>::new());
}

#[test]
fn test_get_required_dependencies_no_package_json() {
    let r = get_required_dependencies(None, None, None, None, None, false);
    assert!(r.names.is_empty());
}

#[test]
fn test_get_required_dependencies_invalid_package_json() {
    let manifest = "invalid json".to_string();
    let r = get_required_dependencies(Some(&manifest), None, None, None, None, true);
    assert!(r.names.is_empty());
}

#[test]
fn test_get_required_dependencies_multiple_lockfiles() {
    let manifest = r#"{"dependencies": {"react": "^18.2.0"}}"#.to_string();
    let npm = r#"{"packages": {"node_modules/react": {"version": "18.2.0"}}}"#.to_string();
    let yarn = "react@^18.2.0:\n  version \"18.2.0\"\n".to_string();
    let r = get_required_dependencies(Some(&manifest), Some(&npm), Some(&yarn), None, None, true);
    assert!(r.ambiguous);
    assert!(r.names.is_empty());
}

#[test]
fn test_get_required_dependencies_package_lock_json() {
    let npm = r#"{
            "packages": {
                "node_modules/dep1": { "version": "1.0.0" }
            }
        }"#
    .to_string();
    let r = get_required_dependencies(None, Some(&npm), None, None, None, false);
    assert!(!r.names.is_empty());
    assert_eq!(r.names.len(), 1);
    assert!(r.names.contains(&"dep1".to_string()));
}

#[test]
fn test_get_required_dependencies_yarn_lock() {
    let yarn = "# THIS IS AN AUTOGENERATED FILE. DO NOT EDIT THIS FILE DIRECTLY.\n# yarn lockfile v1\n\npackage-1@^1.0.0:\n  version \"1.0.3\"\n\npackage-2@^2.0.0:\n  version \"2.0.1\"\n  dependencies:\n    package-4 \"^4.0.0\"\n\npackage-3@^3.0.0:\n  version \"3.1.9\"\n\npackage-4@^4.0.0, package-4@^4.5.0:\n  version \"4.6.3\"\n".to_string();
    let r = get_required_dependencies(None, None, Some(&yarn), None, None, false);
    assert_eq!(r.names.len(), 4);
    assert!(r.names.contains(&"package-1".to_string()));
    assert!(r.names.contains(&"package-2".to_string()));
    assert!(r.names.contains(&"package-3".to_string()));
    assert!(r.names.contains(&"package-4".to_string()));
}

#[test]
fn test_yarn_lock_scoped_and_quoted_entries() {
    let yarn = "# yarn lockfile v1\n\n\"@vercel/analytics@^1.0.0\":\n  version \"1.0.0\"\n\nlodash@^4.17.21:\n  version \"4.17.21\"\n".to_string();
    let r = get_required_dependencies(None, None, Some(&yarn), None, None, false);
    assert_eq!(
        sorted(r.names),
        sorted(names(&["@vercel/analytics", "lodash"]))
    );
}

#[test]
fn test_get_required_dependencies_pnpm_lock_yaml() {
    let pnpm = "dependencies:\n  \"@dep1\": 1.0.0\n  lodash: ^4.17.21\n".to_string();
    let r = get_required_dependencies(None, None, None, Some(&pnpm), None, false);
    assert!(!r.names.is_empty());
    assert_eq!(r.names.len(), 2);
    assert!(r.names.contains(&"@dep1".to_string()));
    assert!(r.names.contains(&"lodash".to_string()));
}

#[test]
fn test_pnpm_packages_section_with_versioned_keys() {
    let pnpm = "lockfileVersion: '6.0'\npackages:\n  /lodash@4.17.21:\n    resolution: {}\n  /@vercel/analytics@1.0.0:\n    resolution: {}\n".to_string();
    let r = get_required_dependencies(None, None, None, Some(&pnpm), None, false);
    assert_eq!(
        sorted(r.names),
        sorted(names(&["@vercel/analytics", "lodash"]))
    );
}

#[test]
fn test_get_required_dependencies_bun_lock() {
    let bun = r#"{
        "lockfileVersion": 1,
        "workspaces": {
            "": {
                "name": "test-node-project",
                "dependencies": { "@dep1": "^1.0.0" },
                "devDependencies": { "@test-dep": "^2.0.0" }
            }
        }
    }"#
    .to_string();
    let r = get_required_dependencies(None, None, None, None, Some(&bun), false);
    assert!(!r.names.is_empty());
    assert_eq!(r.names.len(), 2);
    assert!(r.names.contains(&"@dep1".to_string()));
    assert!(r.names.contains(&"@test-dep".to_string()));
}

#[test]
fn test_missing_lockfiles() {
    let r = get_required_dependencies(None, None, None, None, None, false);
    assert_eq!(r.names, Vec::<String>::new());
    assert!(!r.ambiguous);
}

#[test]
fn test_malformed_package_lock_json() {
    let npm = r#"{ invalid json }"#.to_string();
    let r = get_required_dependencies(None, Some(&npm), None, None, None, false);
    assert_eq!(r.names, Vec::<String>::new());
}

#[test]
fn test_multiple_lockfiles() {
    let npm = r#"{"packages": {"node_modules/react": {}}}"#.to_string();
    let yarn = "react@^18.2.0:\n  version \"18.2.0\"\n".to_string();
    let r = get_required_dependencies(None, Some(&npm), Some(&yarn), None, None, false);
    assert_eq!(r.names, Vec::<String>::new());
    assert!(r.ambiguous);
}

#[test]
fn test_empty_lockfile() {
    let npm = r#"{}"#.to_string();
    let r = get_required_dependencies(None, Some(&npm), None, None, None, false);
    assert_eq!(r.names, Vec::<String>::new());
}

#[test]
fn test_malformed_yaml_lockfile() {
    let pnpm = r#"invalid: yaml: structure"#.to_string();
    let r = get_required_dependencies(None, None, None, Some(&pnpm), None, false);
    assert_eq!(
        r.names,
        Vec::<String>::new(),
        "Should return empty set for malformed pnpm-lock.yaml"
    );
}

#[test]
fn test_package_lock_scoped_key_keeps_scope() {
    let npm = r#"{"packages": {"": {}, "node_modules/@vercel/analytics": {"version": "1.0.0"}}}"#
        .to_string();
    let r = get_required_dependencies(None, Some(&npm), None, None, None, false);
    assert_eq!(r.names, names(&["@vercel/analytics"]));
}
