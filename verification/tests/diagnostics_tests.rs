use cnp::diagnostics::{
    dependency_for_specifier, extract_file_and_line, import_line_specifier,
    unused_import_dependency,
};
use cnp::util::{get_file_name_and_extension, strip_mount_prefix};

fn names(v: &[&str]) -> Vec<String> {
    v.iter().map(|s| s.to_string()).collect()
}

#[test]
fn test_extract_file_and_line_from_diagnostic() {
    let diagnostic =
        "src/file.ts(1,8): error TS6133: 'analytics' is declared but its value is never read.";
    let (file, line) = extract_file_and_line(diagnostic).unwrap();
    assert_eq!(file, "src/file.ts");
    assert_eq!(line, 1);
}

#[test]
fn test_extract_file_and_line_multidigit() {
    let diagnostic = "deep/dir/app.tsx(128,15): error TS6133: 'x' is declared but never read.";
    let (file, line) = extract_file_and_line(diagnostic).unwrap();
    assert_eq!(file, "deep/dir/app.tsx");
    assert_eq!(line, 128);
}

#[test]
fn test_extract_file_and_line_rejects_other_lines() {
    assert!(extract_file_and_line("error TS2304: Cannot find name 'foo'.").is_none());
    assert!(extract_file_and_line("src/file.js(1,8): error TS6133: unused").is_none());
    assert!(extract_file_and_line("").is_none());
}

#[test]
fn test_import_line_specifier_forms() {
    assert_eq!(
        import_line_specifier("import analytics from 'analytics';"),
        Some("analytics".to_string())
    );
    assert_eq!(
        import_line_specifier("import { a, b } from \"lodash\";"),
        Some("lodash".to_string())
    );
    assert_eq!(
        import_line_specifier("  import 'side-effect';"),
        Some("side-effect".to_string())
    );
    assert_eq!(import_line_specifier("const x = 1;"), None);
}

#[test]
fn test_dependency_for_specifier_resolves_base_package() {
    let deps = names(&["@scope/pkg", "lodash"]);
    assert_eq!(
        dependency_for_specifier("@scope/pkg/sub/path", &deps),
        Some("@scope/pkg".to_string())
    );
    assert_eq!(
        dependency_for_specifier("lodash", &deps),
        Some("lodash".to_string())
    );
    assert_eq!(dependency_for_specifier("react", &deps), None);
}

#[test]
fn test_unused_import_dependency_end_to_end() {
    let deps = names(&["analytics", "react"]);
    assert_eq!(
        unused_import_dependency("import analytics from 'analytics';", &deps),
        Some("analytics".to_string())
    );
    assert_eq!(unused_import_dependency("function main() {}", &deps), None);
}

#[test]
fn test_get_file_name_and_extension() {
    assert_eq!(
        get_file_name_and_extension("/path/to/file.txt"),
        Some(("file.txt".to_string(), "txt".to_string()))
    );
    assert_eq!(
        get_file_name_and_extension("archive.tar.gz"),
        Some(("archive.tar.gz".to_string(), "gz".to_string()))
    );
    assert_eq!(get_file_name_and_extension("/path/to/file"), None);
    assert_eq!(get_file_name_and_extension(".bashrc"), None);
    assert_eq!(get_file_name_and_extension("dir/"), None);
}

#[test]
fn test_strip_mount_prefix() {
    assert_eq!(strip_mount_prefix("/private/tmp/file.txt"), "/tmp/file.txt");
    assert_eq!(strip_mount_prefix("/tmp/file.txt"), "/tmp/file.txt");
}
