use loki::commands::{
    delete_branch, fetch_prune, is_detached_head, join, new_branch, pull_prune, push_branch,
    save, GitStep,
};

fn args(s: &GitStep) -> Vec<&str> {
    s.args.iter().map(|a| a.as_str()).collect()
}

fn strings(v: &[&str]) -> Vec<String> {
    v.iter().map(|s| s.to_string()).collect()
}

#[test]
fn push_refuses_detached_head() {
    for name in ["HEAD", "head", "HeAd"] {
        let r = push_branch(&String::from(name), false);
        assert_eq!(r.err(), Some(String::from("HEAD is currently detached, no branch to push!")));
    }
}

#[test]
fn detached_sentinel_is_exact() {
    assert!(is_detached_head("HEAD"));
    assert!(!is_detached_head("HEADS"));
    assert!(!is_detached_head("heat"));
    assert!(!is_detached_head(""));
}

#[test]
fn push_sets_upstream() {
    let s = push_branch(&String::from("topic"), false).unwrap();
    assert_eq!(s.description, "push");
    assert_eq!(args(&s), vec!["push", "--set-upstream", "origin", "topic"]);
}

#[test]
fn push_with_force_uses_lease() {
    let s = push_branch(&String::from("head-start"), true).unwrap();
    assert_eq!(
        args(&s),
        vec!["push", "--set-upstream", "--force-with-lease", "origin", "head-start"]
    );
}

#[test]
fn new_branch_needs_a_name() {
    assert_eq!(new_branch(&Vec::new(), None).err(), Some(String::from("name cannot be empty.")));
}

#[test]
fn new_branch_joins_with_dashes() {
    let steps = new_branch(&strings(&["fix", "login", "bug"]), None).unwrap();
    assert_eq!(steps.len(), 2);
    assert_eq!(steps[0].description, "create new branch");
    assert_eq!(args(&steps[0]), vec!["switch", "--create", "fix-login-bug"]);
    assert_eq!(steps[1].description, "push to origin");
    assert_eq!(args(&steps[1]), vec!["push", "--set-upstream", "origin", "fix-login-bug"]);
}

#[test]
fn new_branch_takes_prefix() {
    let steps = new_branch(&strings(&["topic"]), Some(String::from("me/"))).unwrap();
    assert_eq!(args(&steps[0]), vec!["switch", "--create", "me/topic"]);
}

#[test]
fn join_places_separator_between_parts() {
    assert_eq!(join(&Vec::new(), "-"), "");
    assert_eq!(join(&strings(&["a"]), "-"), "a");
    assert_eq!(join(&strings(&["a", "b", "c"]), ", "), "a, b, c");
}

#[test]
fn save_tracked_files() {
    let steps = save(false, &strings(&["wip", "parser"]), "2024-01-02 3:04:05.0 +00:00:00");
    assert_eq!(steps.len(), 3);
    assert_eq!(steps[0].description, "add files");
    assert_eq!(args(&steps[0]), vec!["add", "--update"]);
    assert_eq!(steps[1].description, "commit");
    assert_eq!(
        args(&steps[1]),
        vec!["commit", "--message", "lk save [2024-01-02 3:04:05.0 +00:00:00] | wip parser"]
    );
    assert_eq!(steps[2].description, "push");
    assert_eq!(args(&steps[2]), vec!["push"]);
}

#[test]
fn save_all_files_without_message() {
    let steps = save(true, &Vec::new(), "T");
    assert_eq!(args(&steps[0]), vec!["add", "--all"]);
    assert_eq!(args(&steps[1]), vec!["commit", "--message", "lk save [T] | "]);
}

#[test]
fn pull_and_fetch_prune() {
    let p = pull_prune();
    assert_eq!(p.description, "pull with pruning");
    assert_eq!(args(&p), vec!["pull", "--prune"]);
    assert_eq!(args(&fetch_prune()), vec!["fetch", "--prune"]);
}

#[test]
fn delete_branch_forces() {
    let d = delete_branch(&String::from("old"));
    assert_eq!(d.description, "delete branch old");
    assert_eq!(args(&d), vec!["branch", "-D", "old"]);
}
