use pie::git::{
    branch_refname, branch_to_track, clone_plan, update_plan, CloneAction, GitError, UpdatePlan,
};

#[test]
fn existing_clone_without_force_is_refused() {
    assert_eq!(clone_plan(true, false), Err(GitError::Exists));
}

#[test]
fn existing_clone_with_force_is_removed_first() {
    assert_eq!(clone_plan(true, true), Ok(CloneAction::RemoveThenClone));
}

#[test]
fn missing_clone_is_cloned_fresh() {
    assert_eq!(clone_plan(false, false), Ok(CloneAction::CloneFresh));
    assert_eq!(clone_plan(false, true), Ok(CloneAction::CloneFresh));
}

#[test]
fn up_to_date_wins_over_fast_forward() {
    assert_eq!(update_plan(true, false), UpdatePlan::AlreadyUpToDate);
    assert_eq!(update_plan(true, true), UpdatePlan::AlreadyUpToDate);
}

#[test]
fn fast_forward_moves_the_branch() {
    assert_eq!(update_plan(false, true), UpdatePlan::FastForward);
}

#[test]
fn diverged_history_is_rejected() {
    assert_eq!(update_plan(false, false), UpdatePlan::Reject);
}

#[test]
fn tracked_branch_defaults_to_master() {
    assert_eq!(branch_to_track(None), "master");
    assert_eq!(branch_to_track(Some(String::from("dev"))), "dev");
}

#[test]
fn refname_is_fully_qualified() {
    assert_eq!(branch_refname("main"), "refs/heads/main");
}
