use git_spawn::hooks::{classify_hooks, Hook};

fn names(hooks: &[Hook]) -> Vec<&str> {
    hooks.iter().map(|h| h.name.as_str()).collect()
}

#[test]
fn empty_listing_is_empty() {
    assert!(classify_hooks("/h", Vec::new()).is_empty());
}

#[test]
fn executable_real_hook_is_enabled() {
    let hooks = classify_hooks("/h", vec![("pre-commit".into(), true)]);
    assert_eq!(names(&hooks), vec!["pre-commit"]);
    assert!(hooks[0].enabled);
    assert_eq!(hooks[0].path, "/h/pre-commit");
}

#[test]
fn non_executable_real_hook_is_disabled() {
    let hooks = classify_hooks("/h", vec![("pre-commit".into(), false)]);
    assert!(!hooks[0].enabled);
}

#[test]
fn sample_is_reported_under_bare_name_disabled() {
    let hooks = classify_hooks("/h", vec![("pre-commit.sample".into(), true)]);
    assert_eq!(names(&hooks), vec!["pre-commit"]);
    assert!(!hooks[0].enabled, "a sample is never enabled");
    assert_eq!(hooks[0].path, "/h/pre-commit.sample");
}

#[test]
fn real_hook_takes_precedence_over_its_sample() {
    let hooks = classify_hooks(
        "/h",
        vec![
            ("pre-commit.sample".into(), true),
            ("pre-commit".into(), true),
        ],
    );
    assert_eq!(names(&hooks), vec!["pre-commit"]);
    assert!(hooks[0].enabled);
    assert_eq!(hooks[0].path, "/h/pre-commit");
}

#[test]
fn results_are_sorted_by_name() {
    let hooks = classify_hooks(
        "/h",
        vec![
            ("pre-push".into(), true),
            ("commit-msg.sample".into(), true),
            ("pre-commit".into(), false),
        ],
    );
    assert_eq!(names(&hooks), vec!["commit-msg", "pre-commit", "pre-push"]);
}
