//! The subprocess as a line channel: how it is started and how a line to it
//! is framed.
//!
//! Starting the process and moving bytes through its pipes is the program's
//! business. Which argument the process gets, which outcome of starting it
//! counts as which failure and what exactly is written for one line are
//! decided here.

use vstd::prelude::*;
use vstd::string::StringExecFns;

verus! {

/// Why no session could be created. This is no failure of a call: a client
/// whose call needed a new session is told of it as such.
#[derive(Clone, Copy, Debug, PartialEq, Eq)]
pub enum SpawnError {
    /// The executable could not be started.
    Start,
    /// The process runs but its input could not be captured.
    StdinUnavailable,
    /// The process runs but its output could not be captured.
    StdoutUnavailable,
}

/// The one argument that the subprocess is always started with: it selects
/// server mode.
pub fn server_args() -> (args: Vec<String>)
    ensures
        args.deep_view() == seq!["app-server"@],
{
    let mut args: Vec<String> = Vec::new();
    args.push(String::from_str("app-server"));
    assert(args.deep_view() =~= seq!["app-server"@]);
    args
}

/// The failure that an attempt to start the subprocess amounts to, if any.
pub open spec fn spawn_failure_of(started: bool, has_stdin: bool, has_stdout: bool) -> Option<
    SpawnError,
> {
    if !started {
        Some(SpawnError::Start)
    } else if !has_stdin {
        Some(SpawnError::StdinUnavailable)
    } else if !has_stdout {
        Some(SpawnError::StdoutUnavailable)
    } else {
        None
    }
}

/// Judges an attempt to start the subprocess: it has to run, and both its
/// input and its output have to be captured. The first of these that is
/// missing names the failure.
pub fn spawn_outcome(started: bool, has_stdin: bool, has_stdout: bool) -> (outcome: Result<
    (),
    SpawnError,
>)
    ensures
        outcome is Ok <==> spawn_failure_of(started, has_stdin, has_stdout) is None,
        outcome matches Err(failure) ==> spawn_failure_of(started, has_stdin, has_stdout) == Some(
            failure,
        ),
{
    if !started {
        Err(SpawnError::Start)
    } else if !has_stdin {
        Err(SpawnError::StdinUnavailable)
    } else if !has_stdout {
        Err(SpawnError::StdoutUnavailable)
    } else {
        Ok(())
    }
}

impl SpawnError {
    /// The text of [`SpawnError::message`] for a subprocess started from
    /// `program`.
    pub open spec fn message_of(self, program: Seq<char>) -> Seq<char> {
        match self {
            SpawnError::Start => "failed to start `"@ + program + "` app-server"@,
            SpawnError::StdinUnavailable => "codex app-server stdin unavailable"@,
            SpawnError::StdoutUnavailable => "codex app-server stdout unavailable"@,
        }
    }

    /// A one-line description for the client whose call needed the session.
    pub fn message(&self, program: &str) -> (text: String)
        ensures
            text@ == self.message_of(program@),
    {
        match self {
            SpawnError::Start => {
                let mut text = String::from_str("failed to start `");
                text.append(program);
                text.append("` app-server");
                text
            },
            SpawnError::StdinUnavailable => String::from_str("codex app-server stdin unavailable"),
            SpawnError::StdoutUnavailable => String::from_str(
                "codex app-server stdout unavailable",
            ),
        }
    }
}

/// What is written to the subprocess for one line of text: the text and one
/// line feed, as one buffer, so that a single write carries the whole line.
pub fn frame_line(text: &str) -> (framed: String)
    ensures
        framed@ == text@.push('\n'),
{
    let mut framed = String::from_str(text);
    framed.push('\n');
    framed
}

} // verus!
