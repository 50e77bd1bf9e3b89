//! Planned external commands. The library never spawns a process; it
//! computes exactly which program to run, with which arguments, in which
//! directory, and what failure to report — and decides, from a finished
//! command's status and error text, whether the pipeline may proceed.

use vstd::prelude::*;
use vstd::string::StringExecFns;
use crate::errors::{CustomError, CustomResult};
use crate::strutil::{chars_of, contains_seq, contains_vec};

verus! {

/// One external call the pipeline wants made: the program, its arguments,
/// the working directory (when one is required), and the error to report
/// when the call fails.
pub struct PlannedCommand {
    pub program: String,
    pub args: Vec<String>,
    /// The directory the command must run in, or `None` for the current
    /// one.
    pub dir: Option<String>,
    /// The error surfaced when the command cannot be started or exits
    /// unsuccessfully.
    pub on_failure: CustomError,
    /// A rejected push whose error text announces a new tag is the one
    /// recoverable failure in the pipeline.
    pub recover_on_new_tag: bool,
}

/// `c` runs `program` with arguments `args` in directory `dir`, reports a
/// `CommandExecution` error carrying `msg` on failure, and is not
/// recoverable.
pub open spec fn is_exec_cmd(
    c: PlannedCommand,
    program: Seq<char>,
    args: Seq<Seq<char>>,
    dir: Option<Seq<char>>,
    msg: Seq<char>,
) -> bool {
    &&& c.program@ == program
    &&& c.args.deep_view() == args
    &&& match (c.dir, dir) {
        (Some(d), Some(e)) => d@ == e,
        (None, None) => true,
        _ => false,
    }
    &&& c.on_failure matches CustomError::CommandExecution(m) && m@ == msg
    &&& !c.recover_on_new_tag
}

/// The error text announces that the tag reached the remote after all.
pub open spec fn announces_new_tag(stderr: Seq<char>) -> bool {
    contains_seq(stderr, "[new tag]"@)
}

/// Decides the outcome of one executed command: success passes; a failed
/// push whose error text contains `[new tag]` is treated as success,
/// because the tag is already on the remote; any other failure surfaces
/// the command's planned error.
pub fn command_outcome(cmd: PlannedCommand, success: bool, stderr: &str) -> (r: CustomResult<()>)
    ensures
        match r {
            Ok(_) => success || (cmd.recover_on_new_tag && announces_new_tag(stderr@)),
            Err(e) => !success && !(cmd.recover_on_new_tag && announces_new_tag(stderr@)) && e
                == cmd.on_failure,
        },
{
    if success {
        return Ok(());
    }
    if cmd.recover_on_new_tag {
        let text = chars_of(stderr);
        let marker = chars_of("[new tag]");
        if contains_vec(&text, &marker) {
            return Ok(());
        }
    }
    Err(cmd.on_failure)
}

/// Builds an argument list from string slices.
pub fn args_of(parts: &Vec<&str>) -> (r: Vec<String>)
    ensures
        r.deep_view() == parts.deep_view(),
{
    let mut out: Vec<String> = Vec::new();
    let mut i: usize = 0;
    while i < parts.len()
        invariant
            i <= parts.len(),
            out@.len() == i,
            forall|k: int| 0 <= k < i ==> out@[k]@ == parts@[k]@,
        decreases parts.len() - i,
    {
        out.push(String::from_str(parts[i]));
        i += 1;
    }
    proof {
        assert forall|k: int| 0 <= k < out@.len() implies out.deep_view()[k]
            == parts.deep_view()[k] by {
            assert(out.deep_view()[k] == out@[k]@);
            assert(parts.deep_view()[k] == parts@[k]@);
        }
        assert(out.deep_view() =~~= parts.deep_view());
    }
    out
}

} // verus!
