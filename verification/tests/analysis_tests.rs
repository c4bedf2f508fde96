//! End-to-end scenarios: declared dependencies against a scanned file, a
//! lockfile, and an ignore list.

use cnp::ignore_list::parse_cnpignore;
use cnp::lockfile::get_required_dependencies;
use cnp::manifest::{manifest_dependencies, ManifestError};
use cnp::scan::ScanState;
use cnp::sets::compute_unused;

fn sorted(mut v: Vec<String>) -> Vec<String> {
    v.sort();
    v
}

fn names(v: &[&str]) -> Vec<String> {
    v.iter().map(|s| s.to_string()).collect()
}

const MANIFEST: &str = r#"{"dependencies": {"react": "^18.0.0", "lodash": "^4.17.21"}}"#;
const SOURCE: &str = "import React from 'react';";

fn scan_single_file(declared: &[String], content: &str) -> ScanState {
    let mut state = ScanState::new(declared.to_vec());
    let path = "index.js".to_string();
    let content = content.to_string();
    state.record_file(&path, false, Some(&content));
    state
}

#[test]
fn test_declared_but_unreferenced_dependency_is_unused() {
    let manifest = MANIFEST.to_string();
    let declared = manifest_dependencies(&manifest).unwrap();
    assert_eq!(sorted(declared.clone()), sorted(names(&["react", "lodash"])));
    let state = scan_single_file(&declared, SOURCE);
    assert_eq!(state.used, names(&["react"]));
    let required = get_required_dependencies(Some(&manifest), None, None, None, None, true);
    assert!(!required.ambiguous);
    assert_eq!(
        required.names,
        Vec::<String>::new(),
        "without a lockfile nothing is required"
    );
    let ignored: Vec<String> = Vec::new();
    let unused = compute_unused(&declared, &state.used, &required.names, &ignored);
    assert_eq!(unused, names(&["lodash"]));
}

#[test]
fn test_ignore_file_suppresses_unused_flag() {
    let manifest = MANIFEST.to_string();
    let declared = manifest_dependencies(&manifest).unwrap();
    let state = scan_single_file(&declared, SOURCE);
    let required = get_required_dependencies(Some(&manifest), None, None, None, None, true);
    let ignored = parse_cnpignore("lodash");
    let unused = compute_unused(&declared, &state.used, &required.names, &ignored);
    assert_eq!(unused, Vec::<String>::new());
}

#[test]
fn test_lockfile_entry_suppresses_unused_flag() {
    let declared = manifest_dependencies(MANIFEST).unwrap();
    let state = scan_single_file(&declared, SOURCE);
    let manifest = MANIFEST.to_string();
    let npm = r#"{"packages": {"node_modules/lodash": {"version": "4.17.21"}}}"#.to_string();
    let required = get_required_dependencies(Some(&manifest), Some(&npm), None, None, None, true);
    assert!(required.names.contains(&"lodash".to_string()));
    let ignored: Vec<String> = Vec::new();
    let unused = compute_unused(&declared, &state.used, &required.names, &ignored);
    assert_eq!(unused, Vec::<String>::new());
}

#[test]
fn test_mixed_used_and_unused_dependencies() {
    let manifest = r#"{
        "name": "test-mixed",
        "version": "1.0.0",
        "dependencies": {
            "react": "^18.2.0",
            "lodash": "^4.17.21",
            "@vercel/analytics": "^1.0.0"
        }
    }"#;
    let declared = manifest_dependencies(manifest).unwrap();
    let state = scan_single_file(&declared, r#"import React from 'react';"#);
    assert_eq!(
        state.used,
        names(&["react"]),
        "Should detect react as used"
    );
    let manifest = manifest.to_string();
    let required = get_required_dependencies(Some(&manifest), None, None, None, None, true);
    let ignored: Vec<String> = Vec::new();
    let unused = compute_unused(&declared, &state.used, &required.names, &ignored);
    assert_eq!(
        sorted(unused),
        sorted(names(&["lodash", "@vercel/analytics"])),
        "Should flag lodash and @vercel/analytics as unused"
    );
}

#[test]
fn test_no_dependencies_in_package_json() {
    let declared = manifest_dependencies(r#"{"name": "empty-project"}"#).unwrap();
    assert_eq!(declared, Vec::<String>::new());
}

#[test]
fn test_read_package_json_invalid_json() {
    let r = manifest_dependencies("this is not valid JSON");
    assert_eq!(r, Err(ManifestError::InvalidJson));
}

#[test]
fn test_manifest_dependency_order_is_sorted() {
    let declared = manifest_dependencies(
        r#"{"dependencies": {"react": "1", "@vercel/analytics": "1", "lodash": "1"}}"#,
    )
    .unwrap();
    assert_eq!(declared, names(&["@vercel/analytics", "lodash", "react"]));
}

#[test]
fn test_read_cnpignore_with_valid_patterns() {
    let content = "# This is a comment\npattern1\n\n  pattern2 \npattern3# This is an inline comment\n";
    let ignore_patterns = parse_cnpignore(content);
    assert_eq!(
        sorted(ignore_patterns),
        sorted(names(&["pattern1", "pattern2", "pattern3"]))
    );
}

#[test]
fn test_cnpignore_parsing() {
    let content = "\n        # Ignore these\n        react\n        @vercel/analytics\n        \n        lodash # inline comment\n        ";
    let ignored = parse_cnpignore(content);
    assert_eq!(
        sorted(ignored),
        sorted(names(&["react", "@vercel/analytics", "lodash"]))
    );
}

#[test]
fn test_empty_cnpignore() {
    let ignored = parse_cnpignore("");
    assert_eq!(ignored, Vec::<String>::new());
}

#[test]
fn test_unused_never_overlaps_other_sets() {
    let declared = names(&["a", "b", "c", "d"]);
    let used = names(&["a"]);
    let required = names(&["b"]);
    let ignored = names(&["c"]);
    let unused = compute_unused(&declared, &used, &required, &ignored);
    assert_eq!(unused, names(&["d"]));
    for n in &unused {
        assert!(!used.contains(n));
        assert!(!required.contains(n));
        assert!(!ignored.contains(n));
    }
}
