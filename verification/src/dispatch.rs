//! From one line of input to a command, and from what became of the command
//! to a return code and a diagnostic.

use vstd::prelude::*;
use vstd::string::StringExecFns;
use crate::errors::IoFailure;
use crate::text::signed_decimal;
use crate::text::signed_decimal_text;
use crate::text::split;
use crate::text::split_spaces;
use crate::text::texts;
use crate::text::trim;
use crate::text::trimmed;

verus! {

/// The error number the operating system gives for a missing file or
/// command.
pub const NOT_FOUND: i32 = 2;

/// The return code that reports a missing file or command.
pub const RETURN_NOT_FOUND: i32 = 127;

/// One line of input, split into the program to run and its arguments.
#[derive(Debug)]
pub struct ExecutedCommand {
    pub name: String,
    pub args: Vec<String>,
}

/// What became of an attempt to run a command.
#[derive(Debug)]
pub enum RunOutcome {
    /// The child ran and ended with this exit code.
    Exited(i32),
    /// No child could be started.
    SpawnFailed(IoFailure),
}

/// The command name a line holds: its first piece once trimmed.
pub open spec fn command_name(line: Seq<char>) -> Seq<char> {
    split_spaces(trimmed(line))[0]
}

/// The arguments a line holds: its pieces after the first, once trimmed.
pub open spec fn command_args(line: Seq<char>) -> Seq<Seq<char>> {
    split_spaces(trimmed(line)).skip(1)
}

/// Splits a line into command name and argument vector. Nothing is quoted
/// or escaped: two spaces in a row give an empty argument.
pub fn parse_command(line: &str) -> (command: ExecutedCommand)
    ensures
        command.name@ == command_name(line@),
        texts(command.args@) == command_args(line@),
{
    let clean = trim(line);
    let mut pieces = split(clean.as_str());
    let ghost all = pieces@;
    let name = pieces.remove(0);
    assert(texts(pieces@) =~= texts(all).skip(1));
    ExecutedCommand { name, args: pieces }
}

/// The return code that stands for a failed system call: 127 where the
/// target does not exist, else the raw error number, else `fallback` where
/// the system gave no number.
pub open spec fn failure_code(failure: IoFailure, fallback: i32) -> i32 {
    match failure.code {
        Some(errno) => if errno == NOT_FOUND {
            RETURN_NOT_FOUND
        } else {
            errno
        },
        None => fallback,
    }
}

/// The line printed for a failed system call: `missing` where the target
/// does not exist, else the raw error number with the message, else the
/// message alone.
pub open spec fn failure_text(failure: IoFailure, missing: Seq<char>) -> Seq<char> {
    match failure.code {
        Some(errno) => if errno == NOT_FOUND {
            missing
        } else {
            "unexpected errno "@ + signed_decimal(errno as int) + "\n  err: "@ + failure.message@
        },
        None => "err "@ + failure.message@,
    }
}

/// Turns a failed system call into a return code and a diagnostic.
pub fn classify_failure(failure: &IoFailure, fallback: i32, missing: String) -> (out: (
    i32,
    String,
))
    ensures
        out.0 == failure_code(*failure, fallback),
        out.1@ == failure_text(*failure, missing@),
{
    match failure.code {
        Some(errno) => {
            if errno == NOT_FOUND {
                (RETURN_NOT_FOUND, missing)
            } else {
                let mut line = "unexpected errno ".to_owned();
                let number = signed_decimal_text(errno);
                line.append(number.as_str());
                line.append("\n  err: ");
                line.append(failure.message.as_str());
                (errno, line)
            }
        },
        None => {
            let mut line = "err ".to_owned();
            line.append(failure.message.as_str());
            (fallback, line)
        },
    }
}

/// The return code after an attempt to run a command.
pub open spec fn return_code(outcome: RunOutcome) -> i32 {
    match outcome {
        RunOutcome::Exited(code) => code,
        RunOutcome::SpawnFailed(failure) => failure_code(failure, 1),
    }
}

/// The line to print after an attempt to run the command called `name`,
/// if there is one to print.
pub open spec fn run_diagnostic(name: Seq<char>, outcome: RunOutcome) -> Option<Seq<char>> {
    match outcome {
        RunOutcome::Exited(_) => None,
        RunOutcome::SpawnFailed(failure) => Some(
            failure_text(failure, "rash: command not found: "@ + name),
        ),
    }
}

/// The return code after a script could not be opened.
pub open spec fn script_code(failure: IoFailure) -> i32 {
    failure_code(failure, 2)
}

/// The line to print after the script at `path` could not be opened.
pub open spec fn script_diagnostic(path: Seq<char>, failure: IoFailure) -> Seq<char> {
    failure_text(failure, "rash: no such file or directory: "@ + path)
}

} // verus!
