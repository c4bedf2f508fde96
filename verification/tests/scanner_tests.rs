use cnp::config::should_ignore;
use cnp::scan::ScanState;
use cnp::scanner::{content_uses_dependency, find_dependencies_in_content};

fn sorted(mut v: Vec<String>) -> Vec<String> {
    v.sort();
    v
}

fn names(v: &[&str]) -> Vec<String> {
    v.iter().map(|s| s.to_string()).collect()
}

#[test]
fn test_file_scanner_finds_dependencies() {
    let content = r#"
        import React from 'react';
        import { analytics } from '@vercel/analytics';
        const _ = require('lodash');
        "#
    .to_string();
    let deps = names(&["react", "@vercel/analytics", "lodash", "unused"]);
    let mut state = ScanState::new(deps);
    let path = "index.js".to_string();
    state.record_file(&path, false, Some(&content));
    assert_eq!(
        sorted(state.used),
        sorted(names(&["react", "@vercel/analytics", "lodash"]))
    );
    assert_eq!(state.explored, names(&["index.js"]));
    assert_eq!(state.ignored, Vec::<String>::new());
}

#[test]
fn test_file_scanner_ignores_folders() {
    let content = "import 'react';".to_string();
    let deps = names(&["react"]);
    let mut state = ScanState::new(deps);
    let dep_file = "node_modules/dep.js".to_string();
    let src_file = "src.js".to_string();
    state.record_file(&dep_file, false, Some(&content));
    state.record_file(&src_file, false, Some(&content));
    assert_eq!(state.used, names(&["react"]));
    assert_eq!(state.explored, names(&["src.js"]));
    assert_eq!(state.ignored, names(&["node_modules/dep.js"]));
}

#[test]
fn test_file_scanner_empty_files() {
    let content = String::new();
    let deps = names(&["react", "@vercel/analytics", "lodash"]);
    let mut state = ScanState::new(deps);
    let path = "index.js".to_string();
    state.record_file(&path, false, Some(&content));
    assert_eq!(
        state.used,
        Vec::<String>::new(),
        "No dependencies should be found in empty file"
    );
    assert_eq!(state.explored, names(&["index.js"]), "Should explore index.js");
    assert_eq!(
        state.ignored,
        Vec::<String>::new(),
        "No files should be ignored"
    );
}

#[test]
fn test_file_scanner_non_js_extensions() {
    let content = r#"
        import React from 'react';
        import { analytics } from '@vercel/analytics';
    "#
    .to_string();
    let deps = names(&["react", "@vercel/analytics", "lodash"]);
    let mut state = ScanState::new(deps);
    let path = "index.ts".to_string();
    state.record_file(&path, true, None);
    let no_unused: Vec<String> = Vec::new();
    state.record_typescript_content(&content, &no_unused);
    assert_eq!(
        sorted(state.used),
        sorted(names(&["react", "@vercel/analytics"])),
        "Should detect dependencies in .ts file"
    );
    assert_eq!(state.explored, names(&["index.ts"]), "Should explore index.ts");
    assert_eq!(
        state.ignored,
        Vec::<String>::new(),
        "No files should be ignored"
    );
}

#[test]
fn test_dependency_alias_imports() {
    let content = r#"
        import { useState as useReactState } from 'react';
        import { analytics as vercelAnalytics } from '@vercel/analytics';
    "#
    .to_string();
    let deps = names(&["react", "@vercel/analytics", "lodash"]);
    let mut state = ScanState::new(deps);
    let path = "index.js".to_string();
    state.record_file(&path, false, Some(&content));
    assert_eq!(
        sorted(state.used),
        sorted(names(&["react", "@vercel/analytics"])),
        "Should detect aliased imports"
    );
    assert_eq!(state.explored, names(&["index.js"]), "Should explore index.js");
    assert_eq!(
        state.ignored,
        Vec::<String>::new(),
        "No files should be ignored"
    );
}

#[test]
fn test_duplicate_paths_recorded_once() {
    let content = "import 'react';".to_string();
    let mut state = ScanState::new(names(&["react"]));
    let path = "index.js".to_string();
    state.record_file(&path, false, Some(&content));
    state.record_file(&path, false, Some(&content));
    assert_eq!(state.explored, names(&["index.js"]));
    assert_eq!(state.used, names(&["react"]));
}

#[test]
fn test_scoped_subpath_require_counts_for_base_package() {
    let content = r#"const sub = require("@scope/pkg/sub/path");"#;
    let deps = names(&["@scope/pkg"]);
    let found = find_dependencies_in_content(content, &deps);
    assert_eq!(found, names(&["@scope/pkg"]));
}

#[test]
fn test_subpath_import_counts_for_base_package() {
    let content = "import get from 'lodash/get';";
    assert!(content_uses_dependency(content, "lodash"));
}

#[test]
fn test_plain_mention_is_no_reference() {
    let content = "const lodash = 1; // lodash is great";
    assert!(!content_uses_dependency(content, "lodash"));
}

#[test]
fn test_substring_of_other_specifier_is_no_reference() {
    let content = "import _ from 'lodash';";
    assert!(!content_uses_dependency(content, "dash"));
    assert!(!content_uses_dependency(content, "loda"));
    assert!(content_uses_dependency(content, "lodash"));
}

#[test]
fn test_require_with_spaces_between_tokens() {
    assert!(content_uses_dependency("const _ = require ( 'lodash' );", "lodash"));
    assert!(content_uses_dependency("require(\"moment\")", "moment"));
}

#[test]
fn test_side_effect_import_needs_terminator() {
    assert!(content_uses_dependency("import 'react';", "react"));
    assert!(!content_uses_dependency("import 'react'", "react"));
}

#[test]
fn test_mismatched_quotes_are_no_reference() {
    assert!(!content_uses_dependency("import React from 'react\";", "react"));
}

#[test]
fn test_typescript_unused_import_excluded() {
    let content = "import analytics from 'analytics';\nfunction main() {}".to_string();
    let deps = names(&["analytics"]);

    let mut state = ScanState::new(deps.clone());
    let reported = names(&["analytics"]);
    state.record_typescript_content(&content, &reported);
    assert_eq!(
        state.used,
        Vec::<String>::new(),
        "An import the type checker reported unused must not count"
    );

    let mut state = ScanState::new(deps);
    let no_unused: Vec<String> = Vec::new();
    state.record_typescript_content(&content, &no_unused);
    assert_eq!(state.used, names(&["analytics"]));
}

#[test]
fn test_should_ignore_matches_segments_at_any_depth() {
    assert!(should_ignore("project/node_modules/pkg/index.js"));
    assert!(should_ignore("node_modules/dep.js"));
    assert!(should_ignore("a/b/dist/c.js"));
    assert!(should_ignore(".git/config.js"));
}

#[test]
fn test_should_ignore_segment_match_is_exact_not_prefix() {
    assert!(!should_ignore("project/node_modules_backup/index.js"));
    assert!(!should_ignore("distribution/index.js"));
    assert!(!should_ignore("src/index.js"));
}
