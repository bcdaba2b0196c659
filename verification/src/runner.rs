//! One-shot build-tool invocations and the interpretation of their outcomes.
//!
//! Running a child process is I/O and stays with the caller; this module
//! decides what to run (the subcommand and the forwarded arguments) and what a
//! finished run means (success exactly on exit status zero, and which error is
//! reported otherwise).

use vstd::prelude::*;
use crate::errors::FastdevError;

verus! {

/// One invocation of the underlying build tool: a subcommand and the ordered
/// arguments forwarded to it, to be run with inherited standard streams.
#[derive(Debug, Clone)]
pub struct CargoInvocation {
    pub subcommand: String,
    pub args: Vec<String>,
}

impl CargoInvocation {
    /// The display name of the invocation for diagnostics, for example
    /// `cargo check`.
    pub fn display_name(&self) -> (r: String)
        ensures
            r@ == "cargo "@ + self.subcommand@,
    {
        let mut s = String::from_str("cargo ");
        s.append(self.subcommand.as_str());
        s
    }
}

/// The invocation of the `check` subcommand: `cargo check` with the forwarded
/// arguments.
pub fn cmd_check(args: Vec<String>) -> (inv: CargoInvocation)
    ensures
        inv.subcommand@ == "check"@,
        inv.args == args,
{
    CargoInvocation { subcommand: String::from_str("check"), args }
}

/// The invocation of the `test` subcommand: `cargo test` with the forwarded
/// arguments.
pub fn cmd_test(args: Vec<String>) -> (inv: CargoInvocation)
    ensures
        inv.subcommand@ == "test"@,
        inv.args == args,
{
    CargoInvocation { subcommand: String::from_str("test"), args }
}

/// The invocation of the `run` subcommand: `cargo run` with the forwarded
/// arguments.
pub fn cmd_run(args: Vec<String>) -> (inv: CargoInvocation)
    ensures
        inv.subcommand@ == "run"@,
        inv.args == args,
{
    CargoInvocation { subcommand: String::from_str("run"), args }
}

/// Interprets the end of a child process: success exactly when the child
/// exited with status zero; otherwise the error names the subcommand and
/// carries the exit code (or none, when the child was terminated by a
/// signal).
pub fn interpret_exit(command: &str, success: bool, code: Option<i32>) -> (r: Result<
    (),
    FastdevError,
>)
    ensures
        r is Ok <==> success,
        !success ==> (r matches Err(e) && e matches FastdevError::CommandFailed {
            command: c,
            code: k,
        } && c@ == command@ && k == code),
{
    if success {
        Ok(())
    } else {
        Err(FastdevError::CommandFailed { command: String::from_str(command), code })
    }
}

/// The error reported when the child process could not be launched at all,
/// naming the attempted subcommand.
pub fn launch_failure(command: &str) -> (e: FastdevError)
    ensures
        e matches FastdevError::LaunchFailure { command: c } && c@ == command@,
{
    FastdevError::LaunchFailure { command: String::from_str(command) }
}

} // verus!
