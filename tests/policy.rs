use loki::policy::{plan_prune, prune_action, PruneAction};

fn strings(v: &[&str]) -> Vec<String> {
    v.iter().map(|s| s.to_string()).collect()
}

fn is_keep(a: &PruneAction) -> bool {
    matches!(a, PruneAction::Keep)
}

fn deleted(a: &PruneAction) -> Option<String> {
    match a {
        PruneAction::Delete(n) => Some(n.clone()),
        _ => None,
    }
}

const NOTICE: &str = "  - [deleted]         (none)     -> feature/foo";

#[test]
fn current_branch_is_warned_not_deleted() {
    let branches = strings(&["main", "feature/foo"]);
    let a = prune_action(NOTICE, &String::from("feature/foo"), &branches);
    match a {
        PruneAction::Warn(n) => assert_eq!(n, "feature/foo"),
        _ => panic!("expected a warning"),
    }
}

#[test]
fn unknown_branch_is_left_alone() {
    let branches = strings(&["main", "other"]);
    let a = prune_action(NOTICE, &String::from("main"), &branches);
    assert!(is_keep(&a));
}

#[test]
fn known_branch_is_deleted() {
    let branches = strings(&["main", "feature/foo"]);
    let a = prune_action(NOTICE, &String::from("main"), &branches);
    assert_eq!(deleted(&a), Some(String::from("feature/foo")));
}

#[test]
fn branch_names_compare_case_sensitively() {
    let branches = strings(&["main", "Feature/Foo"]);
    let a = prune_action(NOTICE, &String::from("FEATURE/FOO"), &branches);
    assert!(is_keep(&a));
}

#[test]
fn non_notice_line_is_kept() {
    let branches = strings(&["main"]);
    let a = prune_action("Already up to date.", &String::from("main"), &branches);
    assert!(is_keep(&a));
}

#[test]
fn failed_deletion_does_not_stop_later_lines() {
    let lines = strings(&[
        "From github.com:owner/repo",
        " - [deleted]         (none)     -> stuck",
        " - [deleted]         (none)     -> done",
    ]);
    let branches = strings(&["main", "stuck", "done"]);
    let plan = plan_prune(&lines, &String::from("main"), &branches);
    assert_eq!(plan.len(), 3);
    let mut attempted = Vec::new();
    let mut failures = Vec::new();
    for action in &plan {
        if let Some(name) = deleted(action) {
            attempted.push(name.clone());
            if name == "stuck" {
                failures.push(name);
            }
        }
    }
    assert_eq!(failures, vec![String::from("stuck")]);
    assert_eq!(attempted, vec![String::from("stuck"), String::from("done")]);
}

#[test]
fn second_run_deletes_nothing() {
    let lines = strings(&[
        " - [deleted]         (none)     -> a",
        " - [deleted]         (none)     -> b",
        " - [deleted]         (none)     -> main",
        " - [deleted]         (none)     -> gone",
    ]);
    let branches = strings(&["main", "a", "b", "c"]);
    let first = plan_prune(&lines, &String::from("main"), &branches);
    let removed: Vec<String> = first.iter().filter_map(deleted).collect();
    assert_eq!(removed, vec![String::from("a"), String::from("b")]);
    let left: Vec<String> = branches.into_iter().filter(|b| !removed.contains(b)).collect();
    let second = plan_prune(&lines, &String::from("main"), &left);
    assert!(second.iter().all(|a| deleted(a).is_none()));
}

#[test]
fn repeated_names_are_not_deduplicated() {
    let lines = strings(&[NOTICE, NOTICE]);
    let branches = strings(&["feature/foo"]);
    let plan = plan_prune(&lines, &String::from("main"), &branches);
    let removed: Vec<String> = plan.iter().filter_map(deleted).collect();
    assert_eq!(removed, vec![String::from("feature/foo"), String::from("feature/foo")]);
}

#[test]
fn empty_output_yields_no_actions() {
    let plan = plan_prune(&Vec::new(), &String::from("main"), &strings(&["main"]));
    assert!(plan.is_empty());
}
