use vstd::prelude::*;

use crate::digest::{trim_text, trimmed};
use crate::paths::{join_path, joined};

verus! {

/// What a finished command left: whether it exited with success, and its
/// standard output and error as text.
pub struct ProcessOutput {
    pub success: bool,
    pub stdout: String,
    pub stderr: String,
}

/// The result of a command, given what it left: its output, trimmed, where
/// it succeeded, or where failure with a blank error output is accepted;
/// otherwise its error output.
pub open spec fn command_result(out: ProcessOutput, allow_empty_error: bool) -> Result<Seq<char>, Seq<char>> {
    if out.success || (allow_empty_error && trimmed(out.stderr@).len() == 0) {
        Ok(trimmed(out.stdout@))
    } else {
        Err(out.stderr@)
    }
}

/// The view of a command's result.
pub open spec fn result_view(r: Result<String, String>) -> Result<Seq<char>, Seq<char>> {
    match r {
        Ok(s) => Ok(s@),
        Err(s) => Err(s@),
    }
}

fn do_exec_process(output: &ProcessOutput, allow_empty_error: bool) -> (r: Result<String, String>)
    ensures
        result_view(r) == command_result(*output, allow_empty_error),
{
    if !output.success {
        if allow_empty_error && trim_text(output.stderr.as_str()).unicode_len() == 0 {
            return Ok(trim_text(output.stdout.as_str()));
        } else {
            return Err(output.stderr.clone());
        }
    }
    Ok(trim_text(output.stdout.as_str()))
}

/// The result of a command whose failure with a blank error output counts
/// as success.
pub fn exec_process_allow_empty_error(output: &ProcessOutput) -> (r: Result<String, String>)
    ensures
        result_view(r) == command_result(*output, true),
{
    do_exec_process(output, true)
}

/// The result of a command: its output, trimmed, where it succeeded, else
/// its error output.
pub fn exec_process(output: &ProcessOutput) -> (r: Result<String, String>)
    ensures
        result_view(r) == command_result(*output, false),
{
    do_exec_process(output, false)
}

/// The storage directory below the home directory `home`.
pub fn storage_path(home: &str) -> (r: String)
    ensures
        r@ == joined(home@, ".local/share/dotr"@),
{
    join_path(home, ".local/share/dotr")
}

/// The registry file in the storage directory `storage_dir`.
pub fn config_file(storage_dir: &str) -> (r: String)
    ensures
        r@ == joined(storage_dir@, ".dotr.toml"@),
{
    join_path(storage_dir, ".dotr.toml")
}

/// The ignore ledger file in the storage directory `storage_dir`.
pub fn ledger_file(storage_dir: &str) -> (r: String)
    ensures
        r@ == joined(storage_dir@, ".dotrignore"@),
{
    join_path(storage_dir, ".dotrignore")
}

/// How `init` treats an existing storage directory.
#[derive(Clone, Copy, Debug, PartialEq, Eq, Structural)]
pub enum InitStep {
    /// Create the storage directory and clone into it.
    Create,
    /// Remove the existing storage directory first, then create and clone.
    Recreate,
    /// Stop: the storage directory exists and recreating it was not asked.
    Refuse,
}

/// Whether `init` may go on, given whether the storage directory exists and
/// whether recreating it was asked for.
pub fn init_step(storage_exists: bool, force_recreate: bool) -> (r: InitStep)
    ensures
        !storage_exists ==> r == InitStep::Create,
        storage_exists && force_recreate ==> r == InitStep::Recreate,
        storage_exists && !force_recreate ==> r == InitStep::Refuse,
{
    if !storage_exists {
        InitStep::Create
    } else if force_recreate {
        InitStep::Recreate
    } else {
        InitStep::Refuse
    }
}

} // verus!
