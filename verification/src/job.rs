//! One operation in one sandbox, from the moment it is started until the
//! environment has been released. The job does no work itself: it says
//! what is to be done next, takes the report of how that went, and keeps
//! the outcome. Whatever is reported, in whatever order, the environment
//! is released before the job is finished.

use crate::error::{Error, ErrorView};
use crate::isolation::{
    enter_command, enter_words, release_command, release_words, runtime_command, sample_command,
    sample_words, terminate_command, terminate_words, FORCED_RELEASE_MS, GRACEFUL_RELEASE_MS,
};
use crate::lifecycle::{Environment, Phase};
use crate::limits::Limits;
use crate::model::{
    CompileResponse, CompileResponseView, ExecuteResponse, ExecuteResponseView, FormatResponse,
    FormatResponseView, Request, RequestView, Response, ResponseView,
};
use crate::monitor::Captured;
use crate::pipeline::{
    artifact_of, artifact_path, complete, completed, lemma_outcome_answers_request, pending_view,
    settle, settled, transcribe, transcribed, Outcome, OutcomeView, Transcript, TranscriptView,
};
use crate::pool::Pool;
use crate::toolchain::{select_for, selected_for, Command, CommandView, SOURCE_FILE};
use vstd::prelude::*;
use vstd::string::StringExecFns;

verus! {

/// The reason that is given where an operation was given up and its
/// response is asked for all the same.
pub const OPERATION_ABANDONED: &'static str = "the operation was abandoned";

/// The reason that is recorded where a forced release was given up.
pub const RELEASE_ABANDONED: &'static str = "the release was abandoned";

/// Where a job stands.
#[derive(Clone, Copy, Debug, PartialEq, Eq, Structural)]
pub enum Stage {
    /// The source is being written into the working directory.
    WritingSource,
    /// The command runs.
    Running,
    /// The command exited cleanly and its file is being read back.
    ReadingArtifact,
    /// The environment has been asked to stop.
    Releasing,
    /// The environment did not stop when asked and is removed by force.
    ForcingRelease,
    /// Nothing is left to do.
    Finished,
}

/// What the driver reports of the step that it was given.
#[derive(Debug)]
pub enum Report {
    /// The source was written, or could not be, for the reason given.
    SourceWritten(Result<(), String>),
    /// The command ran and ended, or could not be started.
    Ran(Result<Captured, String>),
    /// The file was read back, or could not be.
    ArtifactRead(Result<String, String>),
    /// The environment was released, or the attempt failed or ran out of
    /// time.
    Released(Result<(), String>),
    /// The driver gives the operation up: whoever asked has gone, or the
    /// driver itself has failed.
    Abandoned,
}

/// What the driver is to do next.
#[derive(Clone, Debug, PartialEq, Eq)]
pub enum Action {
    /// Write `code` to the file `path`.
    WriteSource { path: String, code: String },
    /// Run `command`, which enters the environment, under `limits`. What
    /// it uses is read with `sample`; it is ended with `terminate`.
    Run { command: Command, limits: Limits, sample: Command, terminate: Command },
    /// Read the text of the file `path`.
    ReadArtifact { path: String },
    /// Run `command`, which releases the environment, and give it up
    /// after `timeout_ms`.
    Release { command: Command, timeout_ms: u64 },
    /// Take the conclusion.
    Deliver,
}

pub enum ActionView {
    WriteSource { path: Seq<char>, code: Seq<char> },
    Run { command: CommandView, limits: Limits, sample: CommandView, terminate: CommandView },
    ReadArtifact { path: Seq<char> },
    Release { command: CommandView, timeout_ms: u64 },
    Deliver,
}

impl View for Action {
    type V = ActionView;

    open spec fn view(&self) -> ActionView {
        match self {
            Action::WriteSource { path, code } => ActionView::WriteSource {
                path: path@,
                code: code@,
            },
            Action::Run { command, limits, sample, terminate } => ActionView::Run {
                command: command@,
                limits: *limits,
                sample: sample@,
                terminate: terminate@,
            },
            Action::ReadArtifact { path } => ActionView::ReadArtifact { path: path@ },
            Action::Release { command, timeout_ms } => ActionView::Release {
                command: command@,
                timeout_ms: *timeout_ms,
            },
            Action::Deliver => ActionView::Deliver,
        }
    }
}

/// One operation in one sandbox.
#[derive(Debug)]
pub struct Job {
    env: Environment,
    limits: Limits,
    request: Option<Request>,
    stage: Stage,
    run: Option<Transcript>,
    outcome: Option<Outcome>,
    released: bool,
    teardown_error: Option<Error>,
}

pub struct JobView {
    /// The identifier of the sandbox.
    pub id: u64,
    pub workdir: Seq<char>,
    pub limits: Limits,
    /// What was asked for; nothing where the sandbox was discarded unused.
    pub request: Option<RequestView>,
    pub stage: Stage,
    /// How the command ended and what it printed, once it has ended.
    pub run: Option<TranscriptView>,
    /// The response or the error, once there is one.
    pub outcome: Option<OutcomeView>,
    /// Whether the environment has been released.
    pub released: bool,
    /// Why the environment could not be released, where it could not.
    pub teardown_error: Option<ErrorView>,
}

/// What is left of a job when it is finished.
#[derive(Debug)]
pub struct Conclusion {
    /// The identifier of the sandbox.
    pub id: u64,
    /// The response or the error; nothing where the operation was given
    /// up.
    pub outcome: Option<Outcome>,
    /// How the command ended and what it printed, if it ran.
    pub run: Option<Transcript>,
    /// Whether the environment has been released.
    pub released: bool,
    /// Why the environment could not be released, where it could not. It
    /// stands beside the outcome and does not change it.
    pub teardown_error: Option<Error>,
}

/// The file `file` of the working directory `workdir`.
pub open spec fn host_path(workdir: Seq<char>, file: Seq<char>) -> Seq<char> {
    workdir + "/"@ + file
}

impl Stage {
    /// The phase of the sandbox's life that the stage belongs to.
    pub open spec fn phase(self) -> Phase {
        match self {
            Stage::WritingSource => Phase::Busy,
            Stage::Running => Phase::Busy,
            Stage::ReadingArtifact => Phase::Busy,
            Stage::Releasing => Phase::Done,
            Stage::ForcingRelease => Phase::Done,
            Stage::Finished => Phase::Done,
        }
    }

    /// How far the stage is along the way: every report takes a job
    /// further.
    pub open spec fn rank(self) -> nat {
        match self {
            Stage::WritingSource => 0,
            Stage::Running => 1,
            Stage::ReadingArtifact => 2,
            Stage::Releasing => 3,
            Stage::ForcingRelease => 4,
            Stage::Finished => 5,
        }
    }
}

impl JobView {
    /// The job at the start of an operation.
    pub open spec fn start(
        id: u64,
        workdir: Seq<char>,
        limits: Limits,
        request: RequestView,
    ) -> JobView {
        JobView {
            id,
            workdir,
            limits,
            request: Some(request),
            stage: Stage::WritingSource,
            run: None,
            outcome: None,
            released: false,
            teardown_error: None,
        }
    }

    /// The job of a sandbox that is discarded without having run
    /// anything: all that is left to do is to release the environment.
    pub open spec fn discarded(id: u64, workdir: Seq<char>, limits: Limits) -> JobView {
        JobView {
            id,
            workdir,
            limits,
            request: None,
            stage: Stage::Releasing,
            run: None,
            outcome: None,
            released: false,
            teardown_error: None,
        }
    }

    /// The job once the operation has ended with `outcome`: the
    /// environment is now to be released.
    pub open spec fn ended(self, outcome: Option<OutcomeView>) -> JobView {
        JobView { stage: Stage::Releasing, outcome, ..self }
    }

    /// The job once it is finished.
    pub open spec fn finished(self, teardown_error: Option<ErrorView>) -> JobView {
        JobView {
            stage: Stage::Finished,
            released: teardown_error is None,
            teardown_error,
            ..self
        }
    }

    /// The job after a report.
    ///
    /// While the operation is under way, the report of the step that was
    /// asked for takes the job to the next step, or ends the operation
    /// with a response or an error; any other report ends it with
    /// neither. Once the operation has ended, a release that succeeded
    /// finishes the job; anything else has the environment removed by
    /// force, and after that attempt the job is finished however it went.
    /// A finished job stays as it is.
    pub open spec fn after(self, report: Report) -> JobView {
        match self.stage {
            Stage::WritingSource => match report {
                Report::SourceWritten(Ok(_)) => JobView { stage: Stage::Running, ..self },
                Report::SourceWritten(Err(why)) => self.ended(
                    Some(Err(ErrorView::IoFailure(why@))),
                ),
                _ => self.ended(None),
            },
            Stage::Running => match (self.request, report) {
                (Some(request), Report::Ran(Ok(captured))) => {
                    let run = transcribed(captured);
                    match settled(request, run) {
                        Some(outcome) => JobView { run: Some(run), ..self.ended(Some(outcome)) },
                        None => JobView { stage: Stage::ReadingArtifact, run: Some(run), ..self },
                    }
                },
                (_, Report::Ran(Err(why))) => self.ended(Some(Err(ErrorView::IoFailure(why@)))),
                _ => self.ended(None),
            },
            Stage::ReadingArtifact => match (self.request, self.run, report) {
                (Some(request), Some(run), Report::ArtifactRead(Ok(text))) => self.ended(
                    Some(Ok(completed(request, run.stdout, run.stderr, text@))),
                ),
                (_, _, Report::ArtifactRead(Err(why))) => self.ended(
                    Some(Err(ErrorView::IoFailure(why@))),
                ),
                _ => self.ended(None),
            },
            Stage::Releasing => match report {
                Report::Released(Ok(_)) => self.finished(None),
                _ => JobView { stage: Stage::ForcingRelease, ..self },
            },
            Stage::ForcingRelease => match report {
                Report::Released(Ok(_)) => self.finished(None),
                Report::Released(Err(why)) => self.finished(
                    Some(ErrorView::TeardownFailed(why@)),
                ),
                _ => self.finished(Some(ErrorView::TeardownFailed(RELEASE_ABANDONED@))),
            },
            Stage::Finished => self,
        }
    }

    /// The release that is asked for at first: a request to stop.
    pub open spec fn graceful_release(self) -> ActionView {
        ActionView::Release {
            command: runtime_command(release_words(self.id, false)),
            timeout_ms: GRACEFUL_RELEASE_MS,
        }
    }

    /// What the driver is to do at this stage.
    pub open spec fn action(self) -> ActionView {
        match self.stage {
            Stage::WritingSource => ActionView::WriteSource {
                path: host_path(self.workdir, SOURCE_FILE@),
                code: match self.request {
                    Some(request) => request.code(),
                    None => Seq::empty(),
                },
            },
            Stage::Running => match self.request {
                Some(request) => ActionView::Run {
                    command: runtime_command(enter_words(self.id, selected_for(request))),
                    limits: self.limits,
                    sample: runtime_command(sample_words(self.id)),
                    terminate: runtime_command(terminate_words(self.id)),
                },
                None => self.graceful_release(),
            },
            Stage::ReadingArtifact => match self.request {
                Some(request) => match artifact_of(request.operation()) {
                    Some(file) => ActionView::ReadArtifact { path: host_path(self.workdir, file) },
                    None => self.graceful_release(),
                },
                None => self.graceful_release(),
            },
            Stage::Releasing => self.graceful_release(),
            Stage::ForcingRelease => ActionView::Release {
                command: runtime_command(release_words(self.id, true)),
                timeout_ms: FORCED_RELEASE_MS,
            },
            Stage::Finished => ActionView::Deliver,
        }
    }

    /// What holds of every job: a request is there while the operation is
    /// under way and no outcome yet; a file is read back only after a
    /// clean exit of an operation that has one; a response answers what
    /// was asked; and the environment counts as released, or its release
    /// as failed, exactly when the job is finished, never both.
    pub open spec fn sound(self) -> bool {
        &&& self.stage.phase() == Phase::Busy ==> self.request is Some && self.outcome is None
        &&& self.stage == Stage::ReadingArtifact ==> self.run is Some
            && self.run->Some_0.termination.clean() && artifact_of(
            self.request->Some_0.operation(),
        ) is Some
        &&& (self.stage == Stage::WritingSource || self.stage == Stage::Running) ==> self.run
            is None
        &&& self.outcome matches Some(Ok(response)) ==> self.request is Some
            && response.operation() == self.request->Some_0.operation()
        &&& self.outcome is Some ==> self.request is Some
        &&& self.stage == Stage::Finished <==> self.released || self.teardown_error is Some
        &&& !(self.released && self.teardown_error is Some)
        &&& self.teardown_error matches Some(error) ==> error is TeardownFailed
    }
}

/// The view of a transcript that may not be there.
pub open spec fn run_view(run: Option<Transcript>) -> Option<TranscriptView> {
    match run {
        Some(run) => Some(run@),
        None => None,
    }
}

/// The view of an error that may not be there.
pub open spec fn error_view(error: Option<Error>) -> Option<ErrorView> {
    match error {
        Some(error) => Some(error@),
        None => None,
    }
}

impl View for Job {
    type V = JobView;

    closed spec fn view(&self) -> JobView {
        JobView {
            id: self.env.id,
            workdir: self.env.workdir@,
            limits: self.limits,
            request: match self.request {
                Some(request) => Some(request@),
                None => None,
            },
            stage: self.stage,
            run: run_view(self.run),
            outcome: pending_view(self.outcome),
            released: self.released,
            teardown_error: error_view(self.teardown_error),
        }
    }
}

/// The result of a compilation that ended with `outcome`: its response
/// or its error; where there is neither, or a response to another
/// operation, an `IoFailure` that says that the operation was abandoned.
pub open spec fn compile_result(outcome: Option<OutcomeView>) -> Result<
    CompileResponseView,
    ErrorView,
> {
    match outcome {
        Some(Ok(ResponseView::Compile(response))) => Ok(response),
        Some(Err(error)) => Err(error),
        _ => Err(ErrorView::IoFailure(OPERATION_ABANDONED@)),
    }
}

/// The result of an execution that ended with `outcome`.
pub open spec fn execute_result(outcome: Option<OutcomeView>) -> Result<
    ExecuteResponseView,
    ErrorView,
> {
    match outcome {
        Some(Ok(ResponseView::Execute(response))) => Ok(response),
        Some(Err(error)) => Err(error),
        _ => Err(ErrorView::IoFailure(OPERATION_ABANDONED@)),
    }
}

/// The result of a formatting that ended with `outcome`.
pub open spec fn format_result(outcome: Option<OutcomeView>) -> Result<
    FormatResponseView,
    ErrorView,
> {
    match outcome {
        Some(Ok(ResponseView::Format(response))) => Ok(response),
        Some(Err(error)) => Err(error),
        _ => Err(ErrorView::IoFailure(OPERATION_ABANDONED@)),
    }
}

impl Conclusion {
    /// The result of a compilation.
    pub fn into_compile(self) -> (r: Result<CompileResponse, Error>)
        ensures
            match compile_result(pending_view(self.outcome)) {
                Ok(response) => r is Ok && r->Ok_0@ == response,
                Err(error) => r is Err && r->Err_0@ == error,
            },
    {
        match self.outcome {
            Some(Ok(Response::Compile(response))) => Ok(response),
            Some(Err(error)) => Err(error),
            _ => Err(Error::IoFailure(OPERATION_ABANDONED.to_owned())),
        }
    }

    /// The result of an execution.
    pub fn into_execute(self) -> (r: Result<ExecuteResponse, Error>)
        ensures
            match execute_result(pending_view(self.outcome)) {
                Ok(response) => r is Ok && r->Ok_0@ == response,
                Err(error) => r is Err && r->Err_0@ == error,
            },
    {
        match self.outcome {
            Some(Ok(Response::Execute(response))) => Ok(response),
            Some(Err(error)) => Err(error),
            _ => Err(Error::IoFailure(OPERATION_ABANDONED.to_owned())),
        }
    }

    /// The result of a formatting.
    pub fn into_format(self) -> (r: Result<FormatResponse, Error>)
        ensures
            match format_result(pending_view(self.outcome)) {
                Ok(response) => r is Ok && r->Ok_0@ == response,
                Err(error) => r is Err && r->Err_0@ == error,
            },
    {
        match self.outcome {
            Some(Ok(Response::Format(response))) => Ok(response),
            Some(Err(error)) => Err(error),
            _ => Err(Error::IoFailure(OPERATION_ABANDONED.to_owned())),
        }
    }
}

/// Every report keeps a sound job sound.
pub proof fn lemma_soundness_is_kept(job: JobView, report: Report)
    requires
        job.sound(),
    ensures
        job.after(report).sound(),
{
    if job.stage == Stage::Running {
        if let (Some(request), Report::Ran(Ok(captured))) = (job.request, report) {
            lemma_outcome_answers_request(
                request,
                transcribed(captured),
                Seq::empty(),
            );
        }
    }
    if job.stage == Stage::ReadingArtifact {
        if let (Some(request), Some(run), Report::ArtifactRead(Ok(text))) = (
            job.request,
            job.run,
            report,
        ) {
            lemma_outcome_answers_request(request, run, text@);
        }
    }
}

impl Job {
    #[verifier::type_invariant]
    spec fn sound(&self) -> bool {
        self@.sound()
    }

    /// The job that runs `request` in `env`.
    pub(crate) fn start(env: Environment, limits: Limits, request: Request) -> (job: Job)
        ensures
            job@ == JobView::start(env.id, env.workdir@, limits, request@),
    {
        Job {
            env,
            limits,
            request: Some(request),
            stage: Stage::WritingSource,
            run: None,
            outcome: None,
            released: false,
            teardown_error: None,
        }
    }

    /// The job that releases `env` without having run anything in it.
    pub(crate) fn discard(env: Environment, limits: Limits) -> (job: Job)
        ensures
            job@ == JobView::discarded(env.id, env.workdir@, limits),
    {
        Job {
            env,
            limits,
            request: None,
            stage: Stage::Releasing,
            run: None,
            outcome: None,
            released: false,
            teardown_error: None,
        }
    }

    /// The identifier of the sandbox.
    pub fn id(&self) -> (r: u64)
        ensures
            r == self@.id,
    {
        self.env.id
    }

    /// The working directory of the environment.
    pub fn workdir(&self) -> (r: &str)
        ensures
            r@ == self@.workdir,
    {
        self.env.workdir.as_str()
    }

    /// Where the job stands.
    pub fn stage(&self) -> (r: Stage)
        ensures
            r == self@.stage,
            self@.sound(),
    {
        proof {
            use_type_invariant(self);
        }
        self.stage
    }

    /// The phase of the sandbox's life that the job is in.
    pub fn phase(&self) -> (r: Phase)
        ensures
            r == self@.stage.phase(),
    {
        match self.stage {
            Stage::WritingSource | Stage::Running | Stage::ReadingArtifact => Phase::Busy,
            _ => Phase::Done,
        }
    }

    fn path_of(&self, file: &str) -> (r: String)
        ensures
            r@ == host_path(self@.workdir, file@),
    {
        String::from_str(self.env.workdir.as_str()).concat("/").concat(file)
    }

    fn graceful_release(&self) -> (r: Action)
        ensures
            r@ == self@.graceful_release(),
    {
        Action::Release {
            command: release_command(self.env.id, false),
            timeout_ms: GRACEFUL_RELEASE_MS,
        }
    }

    /// What the driver is to do next.
    pub fn action(&self) -> (r: Action)
        ensures
            r@ == self@.action(),
    {
        match self.stage {
            Stage::WritingSource => Action::WriteSource {
                path: self.path_of(SOURCE_FILE),
                code: match &self.request {
                    Some(Request::Compile(r)) => r.code.clone(),
                    Some(Request::Execute(r)) => r.code.clone(),
                    Some(Request::Format(r)) => r.code.clone(),
                    None => String::new(),
                },
            },
            Stage::Running => match &self.request {
                Some(request) => {
                    let inner = select_for(request);
                    Action::Run {
                        command: enter_command(self.env.id, &inner),
                        limits: self.limits,
                        sample: sample_command(self.env.id),
                        terminate: terminate_command(self.env.id),
                    }
                },
                None => self.graceful_release(),
            },
            Stage::ReadingArtifact => match &self.request {
                Some(request) => match artifact_path(request.operation()) {
                    Some(file) => Action::ReadArtifact { path: self.path_of(file) },
                    None => self.graceful_release(),
                },
                None => self.graceful_release(),
            },
            Stage::Releasing => self.graceful_release(),
            Stage::ForcingRelease => Action::Release {
                command: release_command(self.env.id, true),
                timeout_ms: FORCED_RELEASE_MS,
            },
            Stage::Finished => Action::Deliver,
        }
    }

    /// Takes in the report of the step that was asked for.
    pub fn advance(self, report: Report) -> (next: Job)
        ensures
            next@ == self@.after(report),
            next@.sound(),
    {
        proof {
            use_type_invariant(&self);
            lemma_soundness_is_kept(self@, report);
        }
        let ghost before = self@;
        let Job { env, limits, request, stage, run, outcome, released, teardown_error } = self;
        let mut stage = stage;
        let mut run = run;
        let mut outcome = outcome;
        let mut released = released;
        let mut teardown_error = teardown_error;
        match stage {
            Stage::WritingSource => {
                match report {
                    Report::SourceWritten(Ok(_)) => {
                        stage = Stage::Running;
                    },
                    Report::SourceWritten(Err(why)) => {
                        stage = Stage::Releasing;
                        outcome = Some(Err(Error::IoFailure(why)));
                    },
                    _ => {
                        stage = Stage::Releasing;
                        outcome = None;
                    },
                }
            },
            Stage::Running => {
                match (&request, report) {
                    (Some(request), Report::Ran(Ok(captured))) => {
                        let transcript = transcribe(&captured);
                        match settle(request, &transcript) {
                            Some(settled) => {
                                stage = Stage::Releasing;
                                outcome = Some(settled);
                            },
                            None => {
                                stage = Stage::ReadingArtifact;
                            },
                        }
                        run = Some(transcript);
                    },
                    (_, Report::Ran(Err(why))) => {
                        stage = Stage::Releasing;
                        outcome = Some(Err(Error::IoFailure(why)));
                    },
                    _ => {
                        stage = Stage::Releasing;
                        outcome = None;
                    },
                }
            },
            Stage::ReadingArtifact => {
                stage = Stage::Releasing;
                match (&request, &run, report) {
                    (Some(request), Some(transcript), Report::ArtifactRead(Ok(text))) => {
                        outcome = Some(
                            Ok(
                                complete(
                                    request,
                                    transcript.stdout.clone(),
                                    transcript.stderr.clone(),
                                    text,
                                ),
                            ),
                        );
                    },
                    (_, _, Report::ArtifactRead(Err(why))) => {
                        outcome = Some(Err(Error::IoFailure(why)));
                    },
                    _ => {
                        outcome = None;
                    },
                }
            },
            Stage::Releasing => {
                match report {
                    Report::Released(Ok(_)) => {
                        stage = Stage::Finished;
                        released = true;
                        teardown_error = None;
                    },
                    _ => {
                        stage = Stage::ForcingRelease;
                    },
                }
            },
            Stage::ForcingRelease => {
                stage = Stage::Finished;
                match report {
                    Report::Released(Ok(_)) => {
                        released = true;
                        teardown_error = None;
                    },
                    Report::Released(Err(why)) => {
                        released = false;
                        teardown_error = Some(Error::TeardownFailed(why));
                    },
                    _ => {
                        released = false;
                        teardown_error = Some(Error::TeardownFailed(RELEASE_ABANDONED.to_owned()));
                    },
                }
            },
            Stage::Finished => {},
        }
        let next = Job { env, limits, request, stage, run, outcome, released, teardown_error };
        assert(next@ == before.after(report));
        next
    }

    /// Ends a finished job: gives the sandbox's slot back to the pool and
    /// hands out what is left. A job that is not finished is handed back
    /// as it is, and the pool stays as it is.
    pub fn conclude(self, pool: &mut Pool) -> (r: Result<Conclusion, Job>)
        ensures
            self@.sound(),
            match r {
                Ok(conclusion) => {
                    &&& self@.stage == Stage::Finished
                    &&& conclusion.id == self@.id
                    &&& pending_view(conclusion.outcome) == self@.outcome
                    &&& run_view(conclusion.run) == self@.run
                    &&& conclusion.released == self@.released
                    &&& error_view(conclusion.teardown_error) == self@.teardown_error
                    &&& conclusion.released != (conclusion.teardown_error matches Some(error)
                        && error@ is TeardownFailed)
                    &&& final(pool)@ == old(pool)@.without(self@.id)
                    &&& !final(pool)@.busy.contains(self@.id)
                    &&& old(pool)@.busy.contains(self@.id) ==> final(pool)@.busy.len() == old(
                        pool,
                    )@.busy.len() - 1
                },
                Err(job) => {
                    &&& self@.stage != Stage::Finished
                    &&& job@ == self@
                    &&& final(pool)@ == old(pool)@
                },
            },
    {
        proof {
            use_type_invariant(&self);
        }
        match self.stage {
            Stage::Finished => {
                pool.release(self.env.id);
                Ok(
                    Conclusion {
                        id: self.env.id,
                        outcome: self.outcome,
                        run: self.run,
                        released: self.released,
                        teardown_error: self.teardown_error,
                    },
                )
            },
            _ => Err(self),
        }
    }
}

} // verus!
