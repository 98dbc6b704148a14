//! What holds of the sandbox as a whole: of every job, whatever is
//! reported to it, and of the watch and the job taken together.

use crate::error::{ErrorView, LimitKind};
use crate::isolation::{environment_name, lemma_names_differ};
use crate::job::{lemma_soundness_is_kept, JobView, Report, Stage};
use crate::lifecycle::Phase;
use crate::limits::{Limits, Usage};
use crate::model::{
    ExecuteRequestView, ExecuteResponseView, FormatRequestView, FormatResponseView, RequestView,
    ResponseView,
};
use crate::monitor::{Captured, Directive, Event, Exit, MonitorView, Termination, Watch};
use crate::model::Channel;
use crate::pipeline::{artifact_of, completed, settled, transcribed, TranscriptView};
use crate::pool::PoolView;
use crate::toolchain::channel_word;
use crate::wire::channel_named;
use vstd::prelude::*;

verus! {

/// The name under which a channel is handed to the toolchain is the name
/// under which a request asks for it.
pub proof fn lemma_channel_names_agree(channel: Channel)
    ensures
        channel_named(channel_word(channel)) == Some(channel),
{
    reveal_strlit("stable");
    reveal_strlit("beta");
    reveal_strlit("nightly");
    assert("stable"@[0] == 's');
    assert("beta"@[0] == 'b');
    assert("nightly"@[0] == 'n');
}

/// No two sandboxes that hold a slot at the same time have the same
/// identifier, nor environments of the same name.
pub proof fn lemma_live_sandboxes_are_distinct(pool: PoolView, i: int, j: int)
    requires
        pool.sound(),
        0 <= i < pool.busy.len(),
        0 <= j < pool.busy.len(),
        i != j,
    ensures
        pool.busy[i] != pool.busy[j],
        environment_name(pool.busy[i]) != environment_name(pool.busy[j]),
{
    lemma_names_differ(pool.busy[i], pool.busy[j]);
}

/// The job after a run of reports, taken in one after the other.
pub open spec fn run_through(job: JobView, reports: Seq<Report>) -> JobView
    decreases reports.len(),
{
    if reports.len() == 0 {
        job
    } else {
        run_through(job.after(reports[0]), reports.drop_first())
    }
}

/// Every report takes a job that is not finished one stage further at
/// least, and leaves a finished job as it is: to report a release twice
/// changes nothing.
pub proof fn lemma_every_report_advances(job: JobView, report: Report)
    ensures
        job.stage != Stage::Finished ==> job.after(report).stage.rank() > job.stage.rank(),
        job.stage == Stage::Finished ==> job.after(report) == job,
{
}

/// The phases come in their order: the operation is not left but for the
/// release of the environment, and a job is not finished but after a
/// release was attempted.
pub proof fn lemma_release_precedes_completion(job: JobView, report: Report)
    ensures
        job.stage.phase() == Phase::Busy ==> job.after(report).stage != Stage::Finished,
        job.after(report).stage == Stage::Finished ==> job.stage.phase() == Phase::Done,
        job.stage.phase() == Phase::Done ==> job.after(report).stage.phase() == Phase::Done,
{
}

/// Once the operation has ended, nothing changes its outcome: neither a
/// release that fails nor anything else that is reported.
pub proof fn lemma_release_keeps_outcome(job: JobView, report: Report)
    requires
        job.stage.phase() == Phase::Done,
    ensures
        job.after(report).outcome == job.outcome,
        job.after(report).run == job.run,
        job.after(report).request == job.request,
{
}

/// A job that is finished has had its environment released, or holds the
/// reason why that failed; and one of the two is so only of a finished
/// job.
pub proof fn lemma_finished_means_released(job: JobView, reports: Seq<Report>)
    requires
        job.sound(),
    ensures
        run_through(job, reports).sound(),
        run_through(job, reports).stage == Stage::Finished <==> run_through(job, reports).released
            || run_through(job, reports).teardown_error is Some,
    decreases reports.len(),
{
    if reports.len() > 0 {
        lemma_soundness_is_kept(job, reports[0]);
        lemma_finished_means_released(job.after(reports[0]), reports.drop_first());
    }
}

/// Five reports finish any job, whatever they say: no operation and no
/// release goes on without end.
pub proof fn lemma_five_reports_finish(job: JobView, reports: Seq<Report>)
    requires
        reports.len() + job.stage.rank() >= 5,
    ensures
        run_through(job, reports).stage == Stage::Finished,
    decreases reports.len(),
{
    if reports.len() > 0 {
        lemma_every_report_advances(job, reports[0]);
        lemma_five_reports_finish(job.after(reports[0]), reports.drop_first());
    }
}

/// A job whose reports all tell of success, for a command that exited
/// with status zero and whose standard error reads as empty, ends with a
/// response that says success and has an empty standard error. This holds
/// for every operation, channel and mode.
pub proof fn lemma_clean_run_succeeds(
    id: u64,
    workdir: Seq<char>,
    limits: Limits,
    request: RequestView,
    captured: Captured,
    text: String,
)
    requires
        captured.termination.clean(),
        transcribed(captured).stderr == Seq::<char>::empty(),
    ensures
        ({
            let ran = JobView::start(id, workdir, limits, request).after(
                Report::SourceWritten(Ok(())),
            ).after(Report::Ran(Ok(captured)));
            let ended = if artifact_of(request.operation()) is Some {
                ran.after(Report::ArtifactRead(Ok(text)))
            } else {
                ran
            };
            &&& ended.stage == Stage::Releasing
            &&& ended.outcome matches Some(Ok(response))
            &&& response.operation() == request.operation()
            &&& response.success()
            &&& response.stderr() == Seq::<char>::empty()
            &&& response.stdout() == transcribed(captured).stdout
        }),
{
}

/// A running command that is found to have reached a limit is ended, and
/// counts as stopped at that limit whatever the system then says of its
/// end.
pub proof fn lemma_breach_is_classified(
    monitor: MonitorView,
    elapsed_ms: u64,
    event: Event,
    later_ms: u64,
    exit: Exit,
)
    requires
        monitor.watch == Watch::Running,
        !(event is Ended),
        monitor.breach(elapsed_ms, event) is Some,
    ensures
        ({
            let kind = monitor.breach(elapsed_ms, event)->Some_0;
            let stopping = monitor.after(elapsed_ms, event);
            let ended = stopping.after(later_ms, Event::Ended(exit));
            &&& stopping.watch == Watch::Stopping(kind)
            &&& stopping.directive(elapsed_ms) == Directive::Terminate(kind)
            &&& ended.watch == Watch::Done(Termination::Limit(kind))
            &&& ended.capture == stopping.capture
        }),
{
}

/// An execution whose command was stopped at a limit ends with a response
/// that says failure and shows what was printed until then. It does not
/// end with an error.
pub proof fn lemma_stopped_execution_fails(
    id: u64,
    workdir: Seq<char>,
    limits: Limits,
    request: ExecuteRequestView,
    captured: Captured,
)
    requires
        captured.termination is Limit,
    ensures
        JobView::start(id, workdir, limits, RequestView::Execute(request)).after(
            Report::SourceWritten(Ok(())),
        ).after(Report::Ran(Ok(captured))).outcome == Some(
            Ok::<ResponseView, ErrorView>(
                ResponseView::Execute(
                    ExecuteResponseView {
                        success: false,
                        stdout: transcribed(captured).stdout,
                        stderr: transcribed(captured).stderr,
                    },
                ),
            ),
        ),
{
}

/// A program that is still running at the deadline: the watch has it
/// ended for the deadline, the end counts as a stop at the wall-clock
/// limit, and the execution is reported as failed.
pub proof fn lemma_deadline_fails_execution(
    monitor: MonitorView,
    elapsed_ms: u64,
    event: Event,
    later_ms: u64,
    exit: Exit,
    request: ExecuteRequestView,
    run: TranscriptView,
)
    requires
        monitor.watch == Watch::Running,
        !(event is Ended),
        monitor.limits.expired(elapsed_ms),
        run.termination == monitor.after(elapsed_ms, event).after(
            later_ms,
            Event::Ended(exit),
        ).watch->Done_0,
    ensures
        monitor.after(elapsed_ms, event).directive(elapsed_ms) == Directive::Terminate(
            LimitKind::WallClock,
        ),
        run.termination == Termination::Limit(LimitKind::WallClock),
        settled(RequestView::Execute(request), run) matches Some(Ok(response))
            && !response.success(),
{
}

/// A program that is found to hold more memory than it may, before the
/// deadline and within its processor time: the watch has it ended, the
/// end counts as a stop at the memory limit, and the execution is
/// reported as failed.
pub proof fn lemma_memory_excess_fails_execution(
    monitor: MonitorView,
    elapsed_ms: u64,
    usage: Usage,
    later_ms: u64,
    exit: Exit,
    request: ExecuteRequestView,
    run: TranscriptView,
)
    requires
        monitor.watch == Watch::Running,
        !monitor.limits.expired(elapsed_ms),
        usage.cpu_ms <= monitor.limits.cpu_ms,
        usage.memory_bytes > monitor.limits.memory_bytes,
        run.termination == monitor.after(elapsed_ms, Event::Sample(usage)).after(
            later_ms,
            Event::Ended(exit),
        ).watch->Done_0,
    ensures
        monitor.after(elapsed_ms, Event::Sample(usage)).directive(elapsed_ms)
            == Directive::Terminate(LimitKind::Memory),
        run.termination == Termination::Limit(LimitKind::Memory),
        settled(RequestView::Execute(request), run) matches Some(Ok(response))
            && !response.success(),
{
}

/// A formatting whose command exited cleanly and left the source as it
/// was submitted is reported as a success with the code unchanged.
pub proof fn lemma_format_of_formatted_code(
    request: FormatRequestView,
    run: TranscriptView,
    text: Seq<char>,
)
    requires
        run.termination.clean(),
        text == request.code,
    ensures
        settled(RequestView::Format(request), run) is None,
        completed(RequestView::Format(request), run.stdout, run.stderr, text)
            == ResponseView::Format(
            FormatResponseView {
                success: true,
                code: request.code,
                stdout: run.stdout,
                stderr: run.stderr,
            },
        ),
{
}

/// A formatter that fails leaves the code as it was submitted.
pub proof fn lemma_failed_format_returns_submitted_code(request: FormatRequestView, run: TranscriptView)
    requires
        !run.termination.clean(),
        run.termination !is Limit,
    ensures
        settled(RequestView::Format(request), run) == Some(
            Ok::<ResponseView, ErrorView>(
                ResponseView::Format(
                    FormatResponseView {
                        success: false,
                        code: request.code,
                        stdout: run.stdout,
                        stderr: run.stderr,
                    },
                ),
            ),
        ),
{
}

} // verus!
