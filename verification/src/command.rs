//! The command: how it ended, what became of it, and the name under which it
//! is reported.

use vstd::prelude::*;
use vstd::string::*;

use crate::Args;

verus! {

/// How a child process ended: its exit code, or `None` when a signal
/// terminated it.
#[derive(Clone, Copy, Debug)]
pub struct ExitStatus {
    pub code: Option<i32>,
}

impl ExitStatus {
    /// The process ran to completion and reported exit code zero.
    pub open spec fn spec_success(&self) -> bool {
        self.code == Some(0i32)
    }

    /// Whether the process ran to completion and reported exit code zero.
    #[verifier::when_used_as_spec(spec_success)]
    pub fn success(&self) -> (ok: bool)
        ensures
            ok == self.spec_success(),
    {
        match self.code {
            Some(c) => c == 0,
            None => false,
        }
    }
}

/// What a finished child process left behind: how it ended, and what it wrote
/// to its standard error stream.
#[derive(Clone, Debug)]
pub struct Output {
    pub status: ExitStatus,
    pub stderr: Vec<u8>,
}

/// Whether a finished process counts as successful: it exited with code zero,
/// or with one of the `ignored` codes. A process killed by a signal never does.
pub open spec fn counts_as_success(status: ExitStatus, ignored: Seq<i32>) -> bool {
    status.spec_success() || (status.code is Some && ignored.contains(status.code->0))
}

/// Whether a finished process counts as successful, given the exit codes that
/// are to be ignored.
pub fn is_success(status: &ExitStatus, ignored: &[i32]) -> (ok: bool)
    ensures
        ok == counts_as_success(*status, ignored@),
{
    if status.success() {
        return true;
    }
    match status.code {
        None => false,
        Some(c) => {
            let mut i: usize = 0;
            while i < ignored.len()
                invariant
                    i <= ignored.len(),
                    status.code == Some(c),
                    forall|j: int| 0 <= j < i ==> ignored@[j] != c,
                decreases ignored.len() - i,
            {
                if ignored[i] == c {
                    assert(ignored@[i as int] == c);
                    return true;
                }
                i += 1;
            }
            false
        },
    }
}

/// What became of the command.
#[derive(Clone, Debug)]
pub enum Outcome {
    /// It exited with code zero, or with a code that is to be ignored.
    Success,
    /// It ran, and exited with another code or was terminated by a signal.
    ExecutionFailure { exit_code: Option<i32>, captured_stderr: Vec<u8> },
    /// It could not be started.
    SpawnFailure { error: String },
}

/// An outcome as plain values.
pub enum OutcomeView {
    Success,
    ExecutionFailure { exit_code: Option<i32>, captured_stderr: Seq<u8> },
    SpawnFailure { error: Seq<char> },
}

impl View for Outcome {
    type V = OutcomeView;

    open spec fn view(&self) -> OutcomeView {
        match self {
            Outcome::Success => OutcomeView::Success,
            Outcome::ExecutionFailure { exit_code, captured_stderr } => OutcomeView::ExecutionFailure {
                exit_code: *exit_code,
                captured_stderr: captured_stderr@,
            },
            Outcome::SpawnFailure { error } => OutcomeView::SpawnFailure { error: error@ },
        }
    }
}

/// The outcome of an attempt to run the command: `Ok` with what the process
/// left behind, or `Err` with the reason why none was started.
pub open spec fn outcome_of(attempt: Result<Output, String>, ignored: Seq<i32>) -> OutcomeView {
    match attempt {
        Ok(output) => if counts_as_success(output.status, ignored) {
            OutcomeView::Success
        } else {
            OutcomeView::ExecutionFailure {
                exit_code: output.status.code,
                captured_stderr: output.stderr@,
            }
        },
        Err(error) => OutcomeView::SpawnFailure { error: error@ },
    }
}

/// Classifies an attempt to run the command.
pub fn classify(attempt: Result<Output, String>, ignored: &[i32]) -> (outcome: Outcome)
    ensures
        outcome@ == outcome_of(attempt, ignored@),
{
    match attempt {
        Ok(output) => {
            if is_success(&output.status, ignored) {
                Outcome::Success
            } else {
                Outcome::ExecutionFailure {
                    exit_code: output.status.code,
                    captured_stderr: output.stderr,
                }
            }
        },
        Err(error) => Outcome::SpawnFailure { error },
    }
}

/// The final component of `path`, as `std::path::Path::file_name` finds it;
/// `None` where the path has none.
pub uninterp spec fn path_file_name(path: Seq<char>) -> Option<Seq<char>>;

/// `std::path::Path::file_name`: the same path always has the same final
/// component. Nothing more is stated of it.
#[verifier::external_body]
fn file_name(path: &str) -> (name: Option<String>)
    ensures
        name.deep_view() == path_file_name(path@),
{
    match std::path::Path::new(path).file_name() {
        Some(name) => Some(name.to_string_lossy().into_owned()),
        None => None,
    }
}

/// The name under which a program is reported: the name given for it, else
/// the final component of the path of the command, else the command as it
/// stands.
pub open spec fn display_name(
    program_name: Option<Seq<char>>,
    file_name: Option<Seq<char>>,
    command: Seq<char>,
) -> Seq<char> {
    match program_name {
        Some(name) => name,
        None => match file_name {
            Some(name) => name,
            None => command,
        },
    }
}

/// The name under which the command of `args` is reported: the program name
/// of the command line, else the final component of the path of the command,
/// else the command as it stands.
pub open spec fn reported_name(args: Args) -> Seq<char> {
    display_name(args.program_name.deep_view(), path_file_name(args.command@), args.command@)
}

/// Picks the name under which a program is reported.
pub fn choose_program_name(program_name: &Option<String>, file_name: Option<String>, command: &str) -> (name:
    String)
    ensures
        name@ == display_name(program_name.deep_view(), file_name.deep_view(), command@),
{
    match program_name {
        Some(name) => name.clone(),
        None => match file_name {
            Some(name) => name,
            None => String::from_str(command),
        },
    }
}

/// The name under which the command of `args` is reported.
pub fn get_program_name(args: &Args) -> (name: String)
    ensures
        name@ == reported_name(*args),
{
    let default_name = file_name(args.command.as_str());
    choose_program_name(&args.program_name, default_name, args.command.as_str())
}

} // verus!
