//! How the outcome of a command becomes the response to a request. A
//! build that fails, a program that exits with an error and a formatter
//! that rejects its input are results like any other: they are reported
//! in the response, with what was printed.

use crate::error::{Error, ErrorView};
use crate::model::{
    CompileResponse, CompileResponseView, ExecuteResponse, ExecuteResponseView, FormatResponse,
    FormatResponseView, Operation, Request, RequestView, Response, ResponseView,
};
use crate::monitor::{Captured, Termination};
use crate::text::{lossy_decoding, lossy_text};
use crate::toolchain::{ARTIFACT_FILE, SOURCE_FILE};
use vstd::prelude::*;

verus! {

/// The outcome of one command, with its output as text.
#[derive(Clone, Debug, PartialEq, Eq)]
pub struct Transcript {
    pub termination: Termination,
    pub stdout: String,
    pub stderr: String,
}

pub struct TranscriptView {
    pub termination: Termination,
    pub stdout: Seq<char>,
    pub stderr: Seq<char>,
}

impl View for Transcript {
    type V = TranscriptView;

    open spec fn view(&self) -> TranscriptView {
        TranscriptView { termination: self.termination, stdout: self.stdout@, stderr: self.stderr@ }
    }
}

/// What an operation has produced: a response or an error, never both.
pub type Outcome = Result<Response, Error>;

pub type OutcomeView = Result<ResponseView, ErrorView>;

/// The view of an outcome.
pub open spec fn outcome_view(outcome: Outcome) -> OutcomeView {
    match outcome {
        Ok(response) => Ok(response@),
        Err(error) => Err(error@),
    }
}

/// The view of an outcome that may not be there yet.
pub open spec fn pending_view(outcome: Option<Outcome>) -> Option<OutcomeView> {
    match outcome {
        Some(outcome) => Some(outcome_view(outcome)),
        None => None,
    }
}

/// The transcript of what was captured: the bytes of each stream, decoded
/// leniently.
pub open spec fn transcribed(captured: Captured) -> TranscriptView {
    TranscriptView {
        termination: captured.termination,
        stdout: lossy_decoding(captured.stdout@),
        stderr: lossy_decoding(captured.stderr@),
    }
}

/// The file that is read back once the command of `operation` has exited
/// cleanly: the artifact of a compilation, the source after formatting,
/// nothing after an execution.
pub open spec fn artifact_of(operation: Operation) -> Option<Seq<char>> {
    match operation {
        Operation::Compile => Some(ARTIFACT_FILE@),
        Operation::Execute => None,
        Operation::Format => Some(SOURCE_FILE@),
    }
}

/// What the end of the command settles.
///
/// An execution is settled whatever happened: it succeeded if the program
/// exited with status zero, and failed otherwise, a stop at a limit
/// included. A compilation or a formatting that exited cleanly is not
/// settled yet (`None`): its file has to be read back. One that was
/// stopped at a limit is an error that carries what was printed. Any other
/// end is a response without success: with no code for a compilation, with
/// the submitted code for a formatting.
pub open spec fn settled(request: RequestView, run: TranscriptView) -> Option<OutcomeView> {
    match request {
        RequestView::Execute(_) => Some(
            Ok(
                ResponseView::Execute(
                    ExecuteResponseView {
                        success: run.termination.clean(),
                        stdout: run.stdout,
                        stderr: run.stderr,
                    },
                ),
            ),
        ),
        RequestView::Compile(_) => if run.termination.clean() {
            None
        } else if run.termination is Limit {
            Some(
                Err(
                    ErrorView::LimitExceeded {
                        kind: run.termination->Limit_0,
                        stdout: run.stdout,
                        stderr: run.stderr,
                    },
                ),
            )
        } else {
            Some(
                Ok(
                    ResponseView::Compile(
                        CompileResponseView {
                            success: false,
                            code: Seq::empty(),
                            stdout: run.stdout,
                            stderr: run.stderr,
                        },
                    ),
                ),
            )
        },
        RequestView::Format(r) => if run.termination.clean() {
            None
        } else if run.termination is Limit {
            Some(
                Err(
                    ErrorView::LimitExceeded {
                        kind: run.termination->Limit_0,
                        stdout: run.stdout,
                        stderr: run.stderr,
                    },
                ),
            )
        } else {
            Some(
                Ok(
                    ResponseView::Format(
                        FormatResponseView {
                            success: false,
                            code: r.code,
                            stdout: run.stdout,
                            stderr: run.stderr,
                        },
                    ),
                ),
            )
        },
    }
}

/// The response to a request whose command exited cleanly and whose file,
/// where it has one, was read back as `text`.
pub open spec fn completed(
    request: RequestView,
    stdout: Seq<char>,
    stderr: Seq<char>,
    text: Seq<char>,
) -> ResponseView {
    match request {
        RequestView::Compile(_) => ResponseView::Compile(
            CompileResponseView { success: true, code: text, stdout, stderr },
        ),
        RequestView::Execute(_) => ResponseView::Execute(
            ExecuteResponseView { success: true, stdout, stderr },
        ),
        RequestView::Format(_) => ResponseView::Format(
            FormatResponseView { success: true, code: text, stdout, stderr },
        ),
    }
}

/// Turns what was captured into text.
pub fn transcribe(captured: &Captured) -> (run: Transcript)
    ensures
        run@ == transcribed(*captured),
{
    Transcript {
        termination: captured.termination,
        stdout: lossy_text(captured.stdout.as_slice()),
        stderr: lossy_text(captured.stderr.as_slice()),
    }
}

/// The file that is read back after a clean exit, if the operation has
/// one.
pub fn artifact_path(operation: Operation) -> (r: Option<&'static str>)
    ensures
        match artifact_of(operation) {
            Some(path) => r is Some && r->Some_0@ == path,
            None => r is None,
        },
{
    match operation {
        Operation::Compile => Some(ARTIFACT_FILE),
        Operation::Execute => None,
        Operation::Format => Some(SOURCE_FILE),
    }
}

/// Says what the end of the command settles; `None` where the file of the
/// operation has to be read back first.
pub fn settle(request: &Request, run: &Transcript) -> (r: Option<Outcome>)
    ensures
        pending_view(r) == settled(request@, run@),
{
    let clean = run.termination.is_clean();
    match request {
        Request::Execute(_) => Some(
            Ok(
                Response::Execute(
                    ExecuteResponse {
                        success: clean,
                        stdout: run.stdout.clone(),
                        stderr: run.stderr.clone(),
                    },
                ),
            ),
        ),
        Request::Compile(_) => {
            if clean {
                None
            } else {
                match run.termination {
                    Termination::Limit(kind) => Some(
                        Err(
                            Error::LimitExceeded {
                                kind,
                                stdout: run.stdout.clone(),
                                stderr: run.stderr.clone(),
                            },
                        ),
                    ),
                    _ => Some(
                        Ok(
                            Response::Compile(
                                CompileResponse {
                                    success: false,
                                    code: String::new(),
                                    stdout: run.stdout.clone(),
                                    stderr: run.stderr.clone(),
                                },
                            ),
                        ),
                    ),
                }
            }
        },
        Request::Format(r) => {
            if clean {
                None
            } else {
                match run.termination {
                    Termination::Limit(kind) => Some(
                        Err(
                            Error::LimitExceeded {
                                kind,
                                stdout: run.stdout.clone(),
                                stderr: run.stderr.clone(),
                            },
                        ),
                    ),
                    _ => Some(
                        Ok(
                            Response::Format(
                                FormatResponse {
                                    success: false,
                                    code: r.code.clone(),
                                    stdout: run.stdout.clone(),
                                    stderr: run.stderr.clone(),
                                },
                            ),
                        ),
                    ),
                }
            }
        },
    }
}

/// The response to a request whose command exited cleanly and whose file,
/// where it has one, was read back as `text`.
pub fn complete(request: &Request, stdout: String, stderr: String, text: String) -> (r: Response)
    ensures
        r@ == completed(request@, stdout@, stderr@, text@),
{
    match request {
        Request::Compile(_) => Response::Compile(
            CompileResponse { success: true, code: text, stdout, stderr },
        ),
        Request::Execute(_) => Response::Execute(ExecuteResponse { success: true, stdout, stderr }),
        Request::Format(_) => Response::Format(
            FormatResponse { success: true, code: text, stdout, stderr },
        ),
    }
}

/// An outcome answers the operation that was asked for.
pub proof fn lemma_outcome_answers_request(
    request: RequestView,
    run: TranscriptView,
    text: Seq<char>,
)
    ensures
        settled(request, run) matches Some(Ok(response)) ==> response.operation()
            == request.operation(),
        completed(request, run.stdout, run.stderr, text).operation() == request.operation(),
        settled(request, run) is None <==> run.termination.clean() && artifact_of(
            request.operation(),
        ) is Some,
{
}

/// What the command printed is what the outcome shows: in the response,
/// or in the error where the command was stopped at a limit.
pub proof fn lemma_output_is_reported(request: RequestView, run: TranscriptView, text: Seq<char>)
    ensures
        settled(request, run) matches Some(Ok(response)) ==> response.stdout() == run.stdout
            && response.stderr() == run.stderr,
        settled(request, run) matches Some(Err(error)) ==> error
            matches ErrorView::LimitExceeded { kind, stdout, stderr } && run.termination
            == Termination::Limit(kind) && stdout == run.stdout && stderr == run.stderr,
        completed(request, run.stdout, run.stderr, text).stdout() == run.stdout,
        completed(request, run.stdout, run.stderr, text).stderr() == run.stderr,
{
}

/// A command that did not exit with status zero never yields a response
/// that claims success, and a failure of the submitted code alone never
/// yields an error.
pub proof fn lemma_failure_is_data(request: RequestView, run: TranscriptView)
    requires
        !run.termination.clean(),
    ensures
        settled(request, run) is Some,
        settled(request, run) matches Some(Ok(response)) ==> !response.success(),
        run.termination !is Limit ==> settled(request, run)->Some_0 is Ok,
        request is Execute ==> settled(request, run)->Some_0 is Ok,
{
}

} // verus!
