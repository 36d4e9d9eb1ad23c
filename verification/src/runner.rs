//! The command runners that the pipeline drives, and what a run reports.

use vstd::prelude::*;
use vstd::utf8::{decode_utf8, encode_utf8, encode_utf8_decode_utf8, valid_utf8};

verus! {

/// What a finished process left behind.
#[derive(Clone, Debug, PartialEq, Eq)]
pub struct RunOutput {
    /// The process exited with status zero.
    pub success: bool,
    pub stdout: Vec<u8>,
    pub stderr: Vec<u8>,
}

/// A runner could not carry out its command at all.
#[derive(Clone, Debug, PartialEq, Eq)]
pub struct RunError {
    pub message: String,
}

/// One pipeline stage as seen from the orchestrator: run the command to its
/// end and report the outcome. Nothing is promised of an outcome; the
/// orchestrator is verified for every one.
pub trait Runner {
    /// One run took the runner from `before` to `after` and reported
    /// `outcome`. Each runner says for itself what its runs are; the
    /// orchestrator only records that a run took place.
    open spec fn ran(before: &Self, after: &Self, outcome: Result<RunOutput, RunError>) -> bool {
        true
    }

    /// Runs the command once, to its end.
    fn run(&mut self) -> (outcome: Result<RunOutput, RunError>)
        ensures
            Self::ran(old(self), final(self), outcome),
    ;
}

/// Two outcomes report the same: the same exit status and the same captured
/// bytes, or the same error.
pub open spec fn same_outcome(
    one: Result<RunOutput, RunError>,
    other: Result<RunOutput, RunError>,
) -> bool {
    match (one, other) {
        (Ok(a), Ok(b)) => a.success == b.success && a.stdout@ == b.stdout@ && a.stderr@
            == b.stderr@,
        (Err(a), Err(b)) => a.message@ == b.message@,
        _ => false,
    }
}

/// A runner that starts no process: every run reports the outcome it was
/// made with, and the runs are counted. It stands in for a command where the
/// pipeline is tried out.
#[derive(Debug)]
pub struct MockRunner {
    pub outcome: Result<RunOutput, RunError>,
    /// How often the runner ran; the count stops at the largest number.
    pub calls: u64,
}

impl MockRunner {
    /// A runner that has not run yet.
    pub fn new(outcome: Result<RunOutput, RunError>) -> (runner: MockRunner)
        ensures
            runner.outcome == outcome,
            runner.calls == 0,
    {
        MockRunner { outcome, calls: 0 }
    }
}

impl Runner for MockRunner {
    /// A run reports the fixed outcome, keeps it, and adds one to the count.
    open spec fn ran(before: &Self, after: &Self, outcome: Result<RunOutput, RunError>) -> bool {
        &&& same_outcome(outcome, before.outcome)
        &&& after.outcome == before.outcome
        &&& after.calls == if before.calls < u64::MAX {
            before.calls + 1
        } else {
            before.calls as int
        }
    }

    fn run(&mut self) -> (outcome: Result<RunOutput, RunError>) {
        if self.calls < u64::MAX {
            self.calls = self.calls + 1;
        }
        match &self.outcome {
            Ok(output) => Ok(
                RunOutput {
                    success: output.success,
                    stdout: output.stdout.clone(),
                    stderr: output.stderr.clone(),
                },
            ),
            Err(error) => Err(RunError { message: error.message.clone() }),
        }
    }
}

/// Why a stage counts as failed.
#[derive(Clone, Debug, PartialEq, Eq)]
pub enum Failure {
    /// The runner itself failed, for the reason given.
    Io(RunError),
    /// The command ran and exited with a non-zero status.
    NonZeroExit,
}

/// The failure that an outcome amounts to, if any: a runner error, or an
/// exit status other than zero.
pub open spec fn failure_of(outcome: Result<RunOutput, RunError>) -> Option<Failure> {
    match outcome {
        Ok(output) => if output.success {
            None
        } else {
            Some(Failure::NonZeroExit)
        },
        Err(error) => Some(Failure::Io(error)),
    }
}

/// A stage failed.
pub open spec fn failed(outcome: Result<RunOutput, RunError>) -> bool {
    failure_of(outcome) is Some
}

/// Tells whether an outcome is a failure, and of which kind. The cause of a
/// runner error is kept.
pub fn handle_output(output: &Result<RunOutput, RunError>) -> (failure: Option<Failure>)
    ensures
        failure == failure_of(*output),
{
    match output {
        Ok(res) => {
            if !res.success {
                return Some(Failure::NonZeroExit);
            }
            None
        },
        Err(e) => Some(Failure::Io(RunError { message: e.message.clone() })),
    }
}

/// One captured stream, made ready for display.
#[derive(Clone, Debug, PartialEq, Eq)]
pub enum StreamText {
    /// The stream was empty: there is nothing to show.
    Empty,
    /// The stream as text.
    Text(String),
    /// The stream is not valid UTF-8.
    Undecodable,
}

/// What `render_stream` owes for the bytes of a stream.
pub open spec fn renders_as(bytes: Seq<u8>, shown: StreamText) -> bool {
    match shown {
        StreamText::Empty => bytes.len() == 0,
        StreamText::Text(text) => bytes.len() > 0 && valid_utf8(bytes) && text@ == decode_utf8(
            bytes,
        ),
        StreamText::Undecodable => !valid_utf8(bytes),
    }
}

/// Calls `std::str::from_utf8`. Trusted: the bytes are accepted exactly when
/// they are valid UTF-8, and the text is then made of these very bytes.
#[verifier::external_body]
fn decode_text(bytes: &Vec<u8>) -> (text: Option<String>)
    ensures
        text is Some <==> valid_utf8(bytes@),
        text is Some ==> encode_utf8(text->Some_0@) == bytes@,
{
    std::str::from_utf8(bytes.as_slice()).ok().map(str::to_string)
}

/// Makes one captured stream ready for display.
pub fn render_stream(bytes: &Vec<u8>) -> (shown: StreamText)
    ensures
        renders_as(bytes@, shown),
{
    match decode_text(bytes) {
        Some(text) => {
            proof {
                encode_utf8_decode_utf8(text@);
            }
            if bytes.len() != 0 {
                StreamText::Text(text)
            } else {
                StreamText::Empty
            }
        },
        None => StreamText::Undecodable,
    }
}

/// Makes the captured output of a run ready for display: standard output
/// first, then standard error.
pub fn print_output(out: &RunOutput) -> (shown: (StreamText, StreamText))
    ensures
        renders_as(out.stdout@, shown.0),
        renders_as(out.stderr@, shown.1),
{
    (render_stream(&out.stdout), render_stream(&out.stderr))
}

} // verus!
