use rename_files::walk::{is_hidden, walk_plan, WalkPlan};

#[test]
fn shallow_plan_is_children_only() {
    let plan = walk_plan(false);
    assert_eq!(plan, WalkPlan { min_depth: 1, max_depth: Some(1), contents_first: true });
    assert!(!plan.includes(0));
    assert!(plan.includes(1));
    assert!(!plan.includes(2));
}

#[test]
fn recursive_plan_is_unbounded_and_contents_first() {
    let plan = walk_plan(true);
    assert_eq!(plan, WalkPlan { min_depth: 1, max_depth: None, contents_first: true });
    assert!(!plan.includes(0));
    assert!(plan.includes(1));
    assert!(plan.includes(7));
}

#[test]
fn hidden_names_start_with_a_dot() {
    assert!(is_hidden(".git"));
    assert!(is_hidden("."));
    assert!(!is_hidden("file_0a.txt"));
    assert!(!is_hidden(""));
}
