use cnp::package_manager::{detect_package_manager, uninstall_verb};
use cnp::uninstall::{
    affirmative_answer, plan_uninstall, removal_command, removal_targets, select_by_indices,
    UninstallAction,
};

fn names(v: &[&str]) -> Vec<String> {
    v.iter().map(|s| s.to_string()).collect()
}

#[test]
fn test_package_manager_detection() {
    assert_eq!(detect_package_manager(false, false, false), "npm");
    assert_eq!(detect_package_manager(false, true, false), "yarn");
    assert_eq!(detect_package_manager(true, false, false), "pnpm");
    assert_eq!(detect_package_manager(false, false, true), "bun");
}

#[test]
fn test_package_manager_priority_prefers_pnpm() {
    assert_eq!(detect_package_manager(true, true, true), "pnpm");
    assert_eq!(detect_package_manager(false, true, true), "yarn");
}

#[test]
fn test_uninstall_verbs() {
    assert_eq!(uninstall_verb("npm"), Some("uninstall".to_string()));
    assert_eq!(uninstall_verb("yarn"), Some("remove".to_string()));
    assert_eq!(uninstall_verb("pnpm"), Some("remove".to_string()));
    assert_eq!(uninstall_verb("bun"), Some("remove".to_string()));
    assert_eq!(uninstall_verb("cargo"), None);
}

#[test]
fn test_removal_command_fields() {
    let c = removal_command("npm", "lodash").unwrap();
    assert_eq!(c.program, "npm");
    assert_eq!(c.verb, "uninstall");
    assert_eq!(c.package, "lodash");
    assert!(removal_command("unknown", "lodash").is_none());
}

#[test]
fn test_uninstall_dry_run() {
    let unused = names(&["lodash", "@vercel/analytics"]);
    let plan = plan_uninstall(&unused, true, false, false);
    match &plan {
        UninstallAction::ListOnly(items) => assert_eq!(items, &unused),
        _ => panic!("dry run must only list"),
    }
    let selected = unused.clone();
    let targets = removal_targets(&plan, true, &selected);
    assert_eq!(
        targets,
        Vec::<String>::new(),
        "Dependencies should not be modified in dry-run"
    );
}

#[test]
fn test_dry_run_yields_no_targets_for_any_answer() {
    let unused = names(&["lodash"]);
    let plan = plan_uninstall(&unused, true, true, false);
    for confirmed in [false, true] {
        let targets = removal_targets(&plan, confirmed, &unused);
        assert_eq!(targets, Vec::<String>::new());
    }
}

#[test]
fn test_interactive_mode_takes_the_selection() {
    let unused = names(&["lodash", "react"]);
    let plan = plan_uninstall(&unused, false, true, false);
    match &plan {
        UninstallAction::PromptSelect(items) => assert_eq!(items, &unused),
        _ => panic!("interactive mode must prompt per dependency"),
    }
    let selected = names(&["lodash"]);
    assert_eq!(removal_targets(&plan, false, &selected), selected);
}

#[test]
fn test_no_flags_informs_and_removes_nothing() {
    let unused = names(&["lodash"]);
    let plan = plan_uninstall(&unused, false, false, false);
    assert!(matches!(plan, UninstallAction::Inform));
    assert_eq!(removal_targets(&plan, true, &unused), Vec::<String>::new());
}

#[test]
fn test_affirmative_answers() {
    assert!(affirmative_answer("y"));
    assert!(affirmative_answer("Y"));
    assert!(affirmative_answer("yes"));
    assert!(affirmative_answer("YES"));
    assert!(affirmative_answer("  yEs \n"));
    assert!(!affirmative_answer("n"));
    assert!(!affirmative_answer("no"));
    assert!(!affirmative_answer("yess"));
    assert!(!affirmative_answer(""));
    assert!(!affirmative_answer("y e s"));
}

#[test]
fn test_select_by_indices_keeps_selection_order() {
    let items = names(&["lodash", "react", "@vercel/analytics"]);
    assert_eq!(
        select_by_indices(&items, &vec![2, 0]),
        names(&["@vercel/analytics", "lodash"])
    );
    assert_eq!(select_by_indices(&items, &vec![]), Vec::<String>::new());
    assert_eq!(select_by_indices(&items, &vec![1, 7]), names(&["react"]));
}

#[test]
fn test_confirm_all_mode_honours_the_answer() {
    let unused = names(&["lodash", "react"]);
    let plan = plan_uninstall(&unused, false, false, true);
    match &plan {
        UninstallAction::PromptConfirmAll(items) => assert_eq!(items, &unused),
        _ => panic!("non-interactive mode must confirm once for all"),
    }
    let none: Vec<String> = Vec::new();
    assert_eq!(removal_targets(&plan, true, &none), unused);
    assert_eq!(removal_targets(&plan, false, &none), Vec::<String>::new());
}
