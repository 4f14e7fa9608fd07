//! Synchronization planning: what a clone-or-update request must do,
//! decided from plain observations of the local clone and the fetched
//! history.  The surrounding program performs the transport and
//! filesystem work and reports its observations back.

use vstd::prelude::*;

use crate::config::opt_str_view;

verus! {

/// Why synchronization failed: the local clone already exists and
/// force was not set; the repository could not be cloned or fetched
/// (missing, inaccessible, or unreachable — not distinguished); or the
/// local branch has diverged from its remote.
#[derive(Debug, Clone, Copy, PartialEq, Eq, Structural)]
pub enum GitError {
    Exists,
    NotFound,
    Diverged,
}

/// What a first-deploy synchronization must do to the local path.
#[derive(Debug, Clone, Copy, PartialEq, Eq, Structural)]
pub enum CloneAction {
    RemoveThenClone,
    CloneFresh,
}

/// Decides a clone request from whether the local path exists and
/// whether the caller set the force flag.  An existing clone is never
/// removed unless force is set: without it the request is refused with
/// `Exists`, and no filesystem mutation is called for.
pub fn clone_plan(exists: bool, force: bool) -> (r: Result<CloneAction, GitError>)
    ensures
        exists && !force ==> r == Result::<CloneAction, GitError>::Err(GitError::Exists),
        exists && force ==> r == Result::<CloneAction, GitError>::Ok(CloneAction::RemoveThenClone),
        !exists ==> r == Result::<CloneAction, GitError>::Ok(CloneAction::CloneFresh),
{
    if exists && force {
        Ok(CloneAction::RemoveThenClone)
    } else if exists {
        Err(GitError::Exists)
    } else {
        Ok(CloneAction::CloneFresh)
    }
}

/// The branch an update tracks: the checked-out branch when one could
/// be determined, the conventional primary branch otherwise.
pub fn branch_to_track(head_shorthand: Option<String>) -> (r: String)
    ensures
        r@ == match opt_str_view(head_shorthand) {
            Some(b) => b,
            None => "master"@,
        },
{
    match head_shorthand {
        Some(b) => b,
        None => String::from_str("master"),
    }
}

/// The full reference name of a local branch.
pub fn branch_refname(branch: &str) -> (r: String)
    ensures
        r@ == "refs/heads/"@ + branch@,
{
    String::from_str("refs/heads/").concat(branch)
}

/// What an update must do after the merge analysis of the fetched
/// commit against the local branch tip.
#[derive(Debug, Clone, Copy, PartialEq, Eq, Structural)]
pub enum UpdatePlan {
    AlreadyUpToDate,
    FastForward,
    Reject,
}

/// Decides an update from the merge analysis.  Up to date means
/// success with no mutation; a possible fast-forward moves the branch
/// reference and checks the working tree out; anything else — a
/// diverged history — is rejected outright, with the local branch and
/// working tree left untouched: updates are fast-forward only.
pub fn update_plan(up_to_date: bool, fast_forward: bool) -> (r: UpdatePlan)
    ensures
        up_to_date ==> r == UpdatePlan::AlreadyUpToDate,
        !up_to_date && fast_forward ==> r == UpdatePlan::FastForward,
        !up_to_date && !fast_forward ==> r == UpdatePlan::Reject,
{
    if up_to_date {
        UpdatePlan::AlreadyUpToDate
    } else if fast_forward {
        UpdatePlan::FastForward
    } else {
        UpdatePlan::Reject
    }
}

} // verus!
