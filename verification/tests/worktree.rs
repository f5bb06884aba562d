use grit::cli::{validate_refs, worktrees_dir, Args};
use grit::worktree::{
    confirms_removal, create_plan, is_managed, removal_step, removal_warning, CreatePlan,
    RemovalStep, Worktree,
};

#[test]
fn create_plans() {
    match create_plan("/repo", ".", "/repo/.grit/worktrees/x") {
        CreatePlan::Ready(w) => assert_eq!(w.path(), "/repo"),
        other => panic!("{other:?}"),
    }
    match create_plan("/repo", "feature/x", "/repo/.grit/worktrees/s") {
        CreatePlan::CheckoutAt(p) => assert_eq!(p, "/repo/.grit/worktrees/s/feature-x"),
        other => panic!("{other:?}"),
    }
}

#[test]
fn managed_worktrees() {
    assert!(is_managed("/repo/.grit/worktrees/s/main", "/repo"));
    assert!(!is_managed("/elsewhere/main", "/repo"));
    assert!(!is_managed("/repo/.grit/worktreesX/main", "/repo"));
    match removal_step("/repo", Worktree::Checkout { path: "/repo/.grit/worktrees/s/main".into() }) {
        RemovalStep::Remove(p) => assert_eq!(p, "/repo/.grit/worktrees/s/main"),
        other => panic!("{other:?}"),
    }
    match removal_step("/repo", Worktree::Checkout { path: "/other/wt".into() }) {
        RemovalStep::Confirm(p) => assert_eq!(p, "/other/wt"),
        other => panic!("{other:?}"),
    }
    assert!(matches!(removal_step("/repo", Worktree::WorkingTree { path: "/repo".into() }), RemovalStep::Keep));
}

#[test]
fn removal_warnings_and_answers() {
    assert_eq!(removal_warning("/w", false, false), None);
    assert_eq!(removal_warning("/w", true, true).unwrap(), "Worktree at '/w' has uncommitted changes and unpushed commits.");
    assert_eq!(removal_warning("/w", false, true).unwrap(), "Worktree at '/w' has unpushed commits.");
    assert!(confirms_removal("y\n"));
    assert!(confirms_removal("  Y "));
    assert!(!confirms_removal("yes"));
    assert!(!confirms_removal("\n"));
    assert!(!confirms_removal("n"));
    assert!(!confirms_removal("y y"));
}

#[test]
fn command_line_refs() {
    assert_eq!(Args { ref_a: "main".into(), ref_b: None }.resolve(), ("main".to_string(), ".".to_string()));
    assert_eq!(Args { ref_a: "a".into(), ref_b: Some("b".into()) }.resolve(), ("a".to_string(), "b".to_string()));
    assert!(validate_refs(".", ".").is_err());
    assert_eq!(validate_refs(".", ".").unwrap_err().message(), "'.' may only appear once");
    assert!(validate_refs("main", ".").is_ok());
    assert_eq!(worktrees_dir("/repo", "a__b"), "/repo/.grit/worktrees/a__b");
}
