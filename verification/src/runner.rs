//! Command construction for the process runner: how a stage's command
//! line is split for a synchronous run, and how the start command is
//! wrapped into a supervisor invocation for the daemonized stage.

use vstd::prelude::*;

use crate::config::RepoConfigError;
use crate::text::{join_space, join_with_space, split_ws};
use crate::utils::string_to_cmd_and_args;

verus! {

/// Why a stage run failed: the command could not be spawned or exited
/// nonzero, or the repository's configuration could not be resolved.
#[derive(Debug, Clone, Copy, PartialEq, Eq, Structural)]
pub enum RunnerError {
    CommandFailed,
    RepoConfigError(RepoConfigError),
}

/// The supervisor invocation that daemonizes a start command under a
/// process name: the command line is split on whitespace into a
/// program and its arguments, and both are spliced into the
/// supervisor's own command line.  No shell quoting is performed.
pub open spec fn spec_pm2_line(name: Seq<char>, cmd: Seq<char>) -> Seq<char> {
    let toks = split_ws(cmd);
    let first = if toks.len() > 0 {
        toks[0]
    } else {
        Seq::empty()
    };
    let rest = if toks.len() > 0 {
        join_space(toks.skip(1))
    } else {
        Seq::empty()
    };
    "pm2 start --name "@ + name + " "@ + first + " -- "@ + rest
}

/// Builds the supervisor command line that launches `cmd` detached
/// under the process name `pm2_name`.
pub fn pm2_command(cmd: &str, pm2_name: &str) -> (r: String)
    ensures
        r@ == spec_pm2_line(pm2_name@, cmd@),
{
    let (first, args) = string_to_cmd_and_args(cmd);
    let joined = join_with_space(&args);
    String::from_str("pm2 start --name ").concat(pm2_name).concat(" ").concat(
        first.as_str(),
    ).concat(" -- ").concat(joined.as_str())
}

} // verus!
