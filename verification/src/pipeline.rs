//! The deploy pipeline: a state machine over the stages
//! sync → resolve → install → build → start.  The surrounding program
//! performs one stage's outside work at a time and feeds the result
//! back as an event; every transition, the skip rules for unset
//! commands, and the attribution of a failure to its stage and cause
//! are decided here.

use vstd::prelude::*;

use crate::config::{RepoConfig, RepoConfigError};
use crate::git::GitError;
use crate::runner::RunnerError;

verus! {

/// One discrete step of the pipeline, each independently failable.
#[derive(Debug, Clone, Copy, PartialEq, Eq, Structural)]
pub enum Stage {
    Syncing,
    Resolving,
    Installing,
    Building,
    Starting,
}

/// The underlying cause of a stage failure.
#[derive(Debug, Clone, Copy, PartialEq, Eq, Structural)]
pub enum PipelineError {
    Git(GitError),
    Config(RepoConfigError),
    Run(RunnerError),
}

/// Where one deployment stands.  The install and build states carry
/// the resolved recipe; later states also carry the captured standard
/// output of the synchronous stages already run (`None` when a stage
/// was skipped).
#[derive(Debug, Clone, PartialEq, Eq)]
pub enum PipelineState {
    Idle,
    Syncing,
    Resolving,
    Installing(RepoConfig),
    Building(RepoConfig, Option<String>),
    Starting(RepoConfig, Option<String>, Option<String>),
    Complete(Option<String>, Option<String>),
    Failed(Stage, PipelineError),
}

/// What the surrounding program reports back after performing one
/// stage's outside work.
#[derive(Debug, PartialEq, Eq)]
pub enum PipelineEvent {
    Invoke,
    Synced(Result<(), GitError>),
    Resolved(Result<RepoConfig, RepoConfigError>),
    InstallRan(Result<String, RunnerError>),
    BuildRan(Result<String, RunnerError>),
    StartLaunched(Result<String, RunnerError>),
}

/// The transition relation of the pipeline.
///
/// A successful resolution enters the first stage whose command is
/// set: an unset install or build command is skipped, while the start
/// stage always runs.  An error event moves to `Failed` with the stage
/// it happened in and its cause.  An event that does not belong to the
/// current state leaves the state unchanged; in particular the two
/// terminal states absorb every event.
pub open spec fn spec_step(s: PipelineState, e: PipelineEvent) -> PipelineState {
    match (s, e) {
        (PipelineState::Idle, PipelineEvent::Invoke) => PipelineState::Syncing,
        (PipelineState::Syncing, PipelineEvent::Synced(res)) => match res {
            Ok(_) => PipelineState::Resolving,
            Err(ge) => PipelineState::Failed(Stage::Syncing, PipelineError::Git(ge)),
        },
        (PipelineState::Resolving, PipelineEvent::Resolved(res)) => match res {
            Ok(c) => if c.install_command is Some {
                PipelineState::Installing(c)
            } else if c.build_command is Some {
                PipelineState::Building(c, None)
            } else {
                PipelineState::Starting(c, None, None)
            },
            Err(ce) => PipelineState::Failed(Stage::Resolving, PipelineError::Config(ce)),
        },
        (PipelineState::Installing(c), PipelineEvent::InstallRan(res)) => match res {
            Ok(out) => if c.build_command is Some {
                PipelineState::Building(c, Some(out))
            } else {
                PipelineState::Starting(c, Some(out), None)
            },
            Err(re) => PipelineState::Failed(Stage::Installing, PipelineError::Run(re)),
        },
        (PipelineState::Building(c, io), PipelineEvent::BuildRan(res)) => match res {
            Ok(out) => PipelineState::Starting(c, io, Some(out)),
            Err(re) => PipelineState::Failed(Stage::Building, PipelineError::Run(re)),
        },
        (PipelineState::Starting(c, io, bo), PipelineEvent::StartLaunched(res)) => match res {
            Ok(_) => PipelineState::Complete(io, bo),
            Err(re) => PipelineState::Failed(Stage::Starting, PipelineError::Run(re)),
        },
        (other, _) => other,
    }
}

/// Advances the pipeline by one event.
pub fn pipeline_step(state: PipelineState, event: PipelineEvent) -> (r: PipelineState)
    ensures
        r == spec_step(state, event),
{
    match (state, event) {
        (PipelineState::Idle, PipelineEvent::Invoke) => PipelineState::Syncing,
        (PipelineState::Syncing, PipelineEvent::Synced(res)) => match res {
            Ok(_) => PipelineState::Resolving,
            Err(ge) => PipelineState::Failed(Stage::Syncing, PipelineError::Git(ge)),
        },
        (PipelineState::Resolving, PipelineEvent::Resolved(res)) => match res {
            Ok(c) => {
                if c.install_command.is_some() {
                    PipelineState::Installing(c)
                } else if c.build_command.is_some() {
                    PipelineState::Building(c, None)
                } else {
                    PipelineState::Starting(c, None, None)
                }
            },
            Err(ce) => PipelineState::Failed(Stage::Resolving, PipelineError::Config(ce)),
        },
        (PipelineState::Installing(c), PipelineEvent::InstallRan(res)) => match res {
            Ok(out) => {
                if c.build_command.is_some() {
                    PipelineState::Building(c, Some(out))
                } else {
                    PipelineState::Starting(c, Some(out), None)
                }
            },
            Err(re) => PipelineState::Failed(Stage::Installing, PipelineError::Run(re)),
        },
        (PipelineState::Building(c, io), PipelineEvent::BuildRan(res)) => match res {
            Ok(out) => PipelineState::Starting(c, io, Some(out)),
            Err(re) => PipelineState::Failed(Stage::Building, PipelineError::Run(re)),
        },
        (PipelineState::Starting(c, io, bo), PipelineEvent::StartLaunched(res)) => match res {
            Ok(_) => PipelineState::Complete(io, bo),
            Err(re) => PipelineState::Failed(Stage::Starting, PipelineError::Run(re)),
        },
        (other, _) => other,
    }
}

/// The states the pipeline can actually reach carry recipes whose
/// commands back the stage they stand in: the install state has an
/// install command, the build state a build command, and every carried
/// recipe a non-empty start command.
pub open spec fn state_inv(s: PipelineState) -> bool {
    match s {
        PipelineState::Installing(c) => c.install_command is Some && c.start_command@.len() > 0,
        PipelineState::Building(c, _) => c.build_command is Some && c.start_command@.len() > 0,
        PipelineState::Starting(c, _, _) => c.start_command@.len() > 0,
        _ => true,
    }
}

/// A well-formed event: a successful resolution carries a recipe with
/// a non-empty start command, as the resolver guarantees.
pub open spec fn event_wf(e: PipelineEvent) -> bool {
    match e {
        PipelineEvent::Resolved(res) => match res {
            Ok(c) => c.start_command@.len() > 0,
            Err(_) => true,
        },
        _ => true,
    }
}

/// The state invariant is preserved by every well-formed event.
pub proof fn lemma_step_preserves_inv(s: PipelineState, e: PipelineEvent)
    requires
        state_inv(s),
        event_wf(e),
    ensures
        state_inv(spec_step(s, e)),
{
}

/// What the resolver returns always makes a well-formed event: a
/// successful resolution carries a non-empty start command.
pub proof fn lemma_resolved_event_wf(
    r: Result<RepoConfig, RepoConfigError>,
    pie: Option<Seq<char>>,
    pkg: Option<Seq<char>>,
    yarn: bool,
)
    requires
        crate::config::result_view(r) == crate::config::spec_resolve(pie, pkg, yarn),
    ensures
        event_wf(PipelineEvent::Resolved(r)),
{
    crate::config::lemma_resolve_start_nonempty(pie, pkg, yarn);
}

/// Whether a deployment is over, well or badly.
pub open spec fn is_terminal(s: PipelineState) -> bool {
    s matches PipelineState::Complete(_, _) || s matches PipelineState::Failed(_, _)
}

/// Once a deployment is over, no event moves it again.
pub proof fn lemma_terminal_absorbing(s: PipelineState, e: PipelineEvent)
    requires
        is_terminal(s),
    ensures
        spec_step(s, e) == s,
{
}

/// Every failure names the stage the error event belongs to and
/// carries that event's cause unchanged; a failure state arises from
/// no other event, and only a failure state stays failed.
pub open spec fn failure_attributed(s: PipelineState, e: PipelineEvent) -> bool {
    match spec_step(s, e) {
        PipelineState::Failed(st, cause) => match (s, e) {
            (PipelineState::Syncing, PipelineEvent::Synced(Err(g))) => st == Stage::Syncing
                && cause == PipelineError::Git(g),
            (PipelineState::Resolving, PipelineEvent::Resolved(Err(ce))) => st == Stage::Resolving
                && cause == PipelineError::Config(ce),
            (PipelineState::Installing(_), PipelineEvent::InstallRan(Err(re))) => st
                == Stage::Installing && cause == PipelineError::Run(re),
            (PipelineState::Building(_, _), PipelineEvent::BuildRan(Err(re))) => st
                == Stage::Building && cause == PipelineError::Run(re),
            (PipelineState::Starting(_, _, _), PipelineEvent::StartLaunched(Err(re))) => st
                == Stage::Starting && cause == PipelineError::Run(re),
            _ => s matches PipelineState::Failed(_, _),
        },
        _ => true,
    }
}

/// No stage error is swallowed or relabelled: see `failure_attributed`.
pub proof fn lemma_failure_attribution(s: PipelineState, e: PipelineEvent)
    ensures
        failure_attributed(s, e),
{
}

/// What the surrounding program must do next for a given state.
#[derive(Debug, Clone, PartialEq, Eq)]
pub enum PipelineAction {
    Begin,
    Synchronize,
    Resolve,
    RunInstall(String),
    RunBuild(String),
    LaunchStart(String),
    Done,
}

/// The outside work a state calls for: nothing for the terminal
/// states, the stage's own command for the running stages.
pub fn pipeline_action(state: &PipelineState) -> (r: PipelineAction)
    requires
        state_inv(*state),
    ensures
        match *state {
            PipelineState::Idle => r == PipelineAction::Begin,
            PipelineState::Syncing => r == PipelineAction::Synchronize,
            PipelineState::Resolving => r == PipelineAction::Resolve,
            PipelineState::Installing(c) => r == PipelineAction::RunInstall(
                c.install_command.unwrap(),
            ),
            PipelineState::Building(c, _) => r == PipelineAction::RunBuild(
                c.build_command.unwrap(),
            ),
            PipelineState::Starting(c, _, _) => r == PipelineAction::LaunchStart(c.start_command),
            PipelineState::Complete(_, _) => r == PipelineAction::Done,
            PipelineState::Failed(_, _) => r == PipelineAction::Done,
        },
{
    match state {
        PipelineState::Idle => PipelineAction::Begin,
        PipelineState::Syncing => PipelineAction::Synchronize,
        PipelineState::Resolving => PipelineAction::Resolve,
        PipelineState::Installing(c) => match &c.install_command {
            Some(cmd) => PipelineAction::RunInstall(cmd.clone()),
            None => {
                assert(false);
                PipelineAction::Done
            },
        },
        PipelineState::Building(c, _) => match &c.build_command {
            Some(cmd) => PipelineAction::RunBuild(cmd.clone()),
            None => {
                assert(false);
                PipelineAction::Done
            },
        },
        PipelineState::Starting(c, _, _) => PipelineAction::LaunchStart(c.start_command.clone()),
        PipelineState::Complete(_, _) => PipelineAction::Done,
        PipelineState::Failed(_, _) => PipelineAction::Done,
    }
}

/// The result of one pipeline run: the stage reached, whether it
/// succeeded, the captured output of the synchronous stages, and the
/// cause on failure.
#[derive(Debug, Clone, PartialEq, Eq)]
pub struct DeployOutcome {
    pub stage: Stage,
    pub success: bool,
    pub install_output: Option<String>,
    pub build_output: Option<String>,
    pub error: Option<PipelineError>,
}

/// Clones an optional captured output.
fn clone_opt_output(o: &Option<String>) -> (r: Option<String>)
    ensures
        r == *o,
{
    match o {
        Some(s) => Some(s.clone()),
        None => None,
    }
}

/// The outcome a terminal state stands for, `None` while the
/// deployment is still under way.
pub fn outcome_of(state: &PipelineState) -> (r: Option<DeployOutcome>)
    ensures
        match *state {
            PipelineState::Complete(io, bo) => r matches Some(o) && o.stage == Stage::Starting
                && o.success && o.install_output == io && o.build_output == bo && o.error is None,
            PipelineState::Failed(st, cause) => r matches Some(o) && o.stage == st && !o.success
                && o.install_output is None && o.build_output is None && o.error == Some(cause),
            _ => r is None,
        },
{
    match state {
        PipelineState::Complete(io, bo) => Some(
            DeployOutcome {
                stage: Stage::Starting,
                success: true,
                install_output: clone_opt_output(io),
                build_output: clone_opt_output(bo),
                error: None,
            },
        ),
        PipelineState::Failed(st, cause) => Some(
            DeployOutcome {
                stage: *st,
                success: false,
                install_output: None,
                build_output: None,
                error: Some(*cause),
            },
        ),
        _ => None,
    }
}

/// The parameters of a deploy request: the repository, as a URL or an
/// `owner/name` identifier, and whether an existing clone may be
/// removed and recloned.
#[derive(Debug, Clone, PartialEq, Eq)]
pub struct DeployParams {
    pub repo: String,
    pub force: Option<bool>,
}

/// Options of a client-side deploy request.
#[derive(Debug, Clone, Copy, PartialEq, Eq, Structural)]
pub struct Deploy {
    pub offline: bool,
}

} // verus!
