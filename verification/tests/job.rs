use playground::error::{Error, LimitKind};
use playground::isolation::{enter_command, release_command, sample_command, terminate_command};
use playground::job::{Action, Conclusion, Job, Report, Stage, RELEASE_ABANDONED};
use playground::lifecycle::{Phase, Sandbox, Ticket};
use playground::limits::Limits;
use playground::model::{
    Channel, CompileRequest, CompileResponse, CompileTarget, ExecuteRequest, ExecuteResponse,
    FormatRequest, FormatResponse, Mode, Operation, Request, Response,
};
use playground::monitor::{Captured, Termination};
use playground::pipeline::{artifact_path, complete, settle, transcribe, Transcript};
use playground::pool::Pool;
use playground::toolchain::select_for;

fn sandbox(pool: &mut Pool) -> Sandbox {
    let ticket = Ticket::reserve(pool).unwrap();
    Sandbox::new(ticket, pool, Ok("/tmp/box".to_string()), Limits::default()).unwrap()
}

fn compile_request(code: &str) -> CompileRequest {
    CompileRequest {
        target: CompileTarget::Assembly,
        channel: Channel::Stable,
        mode: Mode::Debug,
        tests: false,
        code: code.to_string(),
    }
}

fn execute_request(code: &str) -> ExecuteRequest {
    ExecuteRequest { channel: Channel::Stable, mode: Mode::Debug, tests: false, code: code.to_string() }
}

fn ended(termination: Termination, stdout: &[u8], stderr: &[u8]) -> Captured {
    Captured { termination, stdout: stdout.to_vec(), stderr: stderr.to_vec(), truncated: false }
}

fn released(job: Job, pool: &mut Pool) -> Conclusion {
    assert_eq!(job.stage(), Stage::Releasing);
    assert_eq!(job.phase(), Phase::Done);
    let job = job.advance(Report::Released(Ok(())));
    assert_eq!(job.stage(), Stage::Finished);
    assert_eq!(job.action(), Action::Deliver);
    job.conclude(pool).unwrap()
}

#[test]
fn compile_of_a_valid_program_returns_the_assembly() {
    let mut pool = Pool::new(1);
    let job = sandbox(&mut pool).compile(compile_request("fn main(){}"));
    assert_eq!(job.stage(), Stage::WritingSource);
    assert_eq!(job.phase(), Phase::Busy);
    assert_eq!(
        job.action(),
        Action::WriteSource {
            path: "/tmp/box/src/main.rs".to_string(),
            code: "fn main(){}".to_string(),
        }
    );
    let job = job.advance(Report::SourceWritten(Ok(())));
    assert_eq!(job.stage(), Stage::Running);
    let inner = select_for(&Request::Compile(compile_request("fn main(){}")));
    assert_eq!(
        job.action(),
        Action::Run {
            command: enter_command(0, &inner),
            limits: Limits::default(),
            sample: sample_command(0),
            terminate: terminate_command(0),
        }
    );
    let job = job.advance(Report::Ran(Ok(ended(Termination::Exited(0), b"", b""))));
    assert_eq!(job.stage(), Stage::ReadingArtifact);
    assert_eq!(job.action(), Action::ReadArtifact { path: "/tmp/box/compilation".to_string() });
    let job = job.advance(Report::ArtifactRead(Ok("<assembly text>".to_string())));
    assert_eq!(
        job.action(),
        Action::Release { command: release_command(0, false), timeout_ms: 2_000 }
    );
    let conclusion = released(job, &mut pool);
    assert_eq!(
        conclusion.outcome,
        Some(Ok(Response::Compile(CompileResponse {
            success: true,
            code: "<assembly text>".to_string(),
            stdout: String::new(),
            stderr: String::new(),
        })))
    );
    assert!(conclusion.released);
    assert_eq!(conclusion.teardown_error, None);
    assert_eq!(conclusion.id, 0);
    assert_eq!(pool.busy_count(), 0);
}

#[test]
fn execute_of_a_panicking_program_reports_failure_with_the_message() {
    let mut pool = Pool::new(1);
    let job = sandbox(&mut pool).execute(execute_request("fn main(){panic!(\"x\")}"));
    let job = job.advance(Report::SourceWritten(Ok(())));
    let panic = b"thread 'main' panicked at src/main.rs:1:11:\nx\n";
    let job = job.advance(Report::Ran(Ok(ended(Termination::Exited(101), b"", panic))));
    let conclusion = released(job, &mut pool);
    assert_eq!(
        conclusion.outcome,
        Some(Ok(Response::Execute(ExecuteResponse {
            success: false,
            stdout: String::new(),
            stderr: "thread 'main' panicked at src/main.rs:1:11:\nx\n".to_string(),
        })))
    );
    assert_eq!(
        conclusion.run.map(|run| run.termination),
        Some(Termination::Exited(101))
    );
}

#[test]
fn compile_of_unparseable_source_reports_failure_and_no_error() {
    let mut pool = Pool::new(1);
    let job = sandbox(&mut pool).compile(compile_request("fn main( {"));
    let job = job.advance(Report::SourceWritten(Ok(())));
    let diagnostics = b"error: mismatched closing delimiter\n";
    let job = job.advance(Report::Ran(Ok(ended(Termination::Exited(101), b"", diagnostics))));
    let conclusion = released(job, &mut pool);
    assert_eq!(
        conclusion.outcome,
        Some(Ok(Response::Compile(CompileResponse {
            success: false,
            code: String::new(),
            stdout: String::new(),
            stderr: "error: mismatched closing delimiter\n".to_string(),
        })))
    );
}

#[test]
fn a_clean_run_succeeds_for_every_channel_mode_and_operation() {
    for channel in [Channel::Stable, Channel::Beta, Channel::Nightly] {
        for mode in [Mode::Debug, Mode::Release] {
            let requests = [
                Request::Compile(CompileRequest {
                    target: CompileTarget::LlvmIr,
                    channel,
                    mode,
                    tests: false,
                    code: "fn main(){}".to_string(),
                }),
                Request::Execute(ExecuteRequest {
                    channel,
                    mode,
                    tests: false,
                    code: "fn main(){}".to_string(),
                }),
                Request::Format(FormatRequest { code: "fn main() {}\n".to_string() }),
            ];
            for request in requests {
                let mut pool = Pool::new(1);
                let ready = sandbox(&mut pool);
                let operation = request.operation();
                let job = match request {
                    Request::Compile(r) => ready.compile(r),
                    Request::Execute(r) => ready.execute(r),
                    Request::Format(r) => ready.format(r),
                };
                let job = job.advance(Report::SourceWritten(Ok(())));
                let mut job = job.advance(Report::Ran(Ok(ended(Termination::Exited(0), b"ok\n", b""))));
                if artifact_path(operation).is_some() {
                    job = job.advance(Report::ArtifactRead(Ok("text".to_string())));
                }
                let conclusion = released(job, &mut pool);
                let (success, stdout, stderr) = match conclusion.outcome {
                    Some(Ok(Response::Compile(r))) => {
                        assert_eq!(operation, Operation::Compile);
                        (r.success, r.stdout, r.stderr)
                    }
                    Some(Ok(Response::Execute(r))) => {
                        assert_eq!(operation, Operation::Execute);
                        (r.success, r.stdout, r.stderr)
                    }
                    Some(Ok(Response::Format(r))) => {
                        assert_eq!(operation, Operation::Format);
                        (r.success, r.stdout, r.stderr)
                    }
                    other => panic!("no response: {:?}", other),
                };
                assert!(success);
                assert_eq!(stdout, "ok\n");
                assert_eq!(stderr, "");
            }
        }
    }
}

#[test]
fn an_execution_stopped_at_the_deadline_fails_without_an_error() {
    let mut pool = Pool::new(1);
    let job = sandbox(&mut pool).execute(execute_request("fn main(){loop{}}"));
    let job = job.advance(Report::SourceWritten(Ok(())));
    let stopped = ended(Termination::Limit(LimitKind::WallClock), b"started\n", b"");
    let job = job.advance(Report::Ran(Ok(stopped)));
    let conclusion = released(job, &mut pool);
    assert_eq!(
        conclusion.outcome,
        Some(Ok(Response::Execute(ExecuteResponse {
            success: false,
            stdout: "started\n".to_string(),
            stderr: String::new(),
        })))
    );
    assert_eq!(
        conclusion.run.map(|run| run.termination),
        Some(Termination::Limit(LimitKind::WallClock))
    );
}

#[test]
fn an_execution_stopped_for_memory_fails_without_an_error() {
    let mut pool = Pool::new(1);
    let job = sandbox(&mut pool).execute(execute_request("fn main(){}"));
    let job = job.advance(Report::SourceWritten(Ok(())));
    let job = job.advance(Report::Ran(Ok(ended(Termination::Limit(LimitKind::Memory), b"", b"oom"))));
    let conclusion = released(job, &mut pool);
    assert_eq!(
        conclusion.outcome,
        Some(Ok(Response::Execute(ExecuteResponse {
            success: false,
            stdout: String::new(),
            stderr: "oom".to_string(),
        })))
    );
}

#[test]
fn a_compilation_stopped_at_a_limit_is_an_error_with_the_partial_output() {
    let mut pool = Pool::new(1);
    let job = sandbox(&mut pool).compile(compile_request("fn main(){}"));
    let job = job.advance(Report::SourceWritten(Ok(())));
    let stopped = ended(Termination::Limit(LimitKind::CpuTime), b"Compiling", b"warning");
    let job = job.advance(Report::Ran(Ok(stopped)));
    let conclusion = released(job, &mut pool);
    assert_eq!(
        conclusion.outcome,
        Some(Err(Error::LimitExceeded {
            kind: LimitKind::CpuTime,
            stdout: "Compiling".to_string(),
            stderr: "warning".to_string(),
        }))
    );
}

#[test]
fn formatting_formatted_code_leaves_it_unchanged() {
    let mut pool = Pool::new(1);
    let code = "fn main() {}\n";
    let job = sandbox(&mut pool).format(FormatRequest { code: code.to_string() });
    let job = job.advance(Report::SourceWritten(Ok(())));
    let job = job.advance(Report::Ran(Ok(ended(Termination::Exited(0), b"", b""))));
    assert_eq!(job.action(), Action::ReadArtifact { path: "/tmp/box/src/main.rs".to_string() });
    let job = job.advance(Report::ArtifactRead(Ok(code.to_string())));
    let conclusion = released(job, &mut pool);
    assert_eq!(
        conclusion.outcome,
        Some(Ok(Response::Format(FormatResponse {
            success: true,
            code: code.to_string(),
            stdout: String::new(),
            stderr: String::new(),
        })))
    );
}

#[test]
fn formatting_returns_what_the_formatter_wrote() {
    let mut pool = Pool::new(1);
    let job = sandbox(&mut pool).format(FormatRequest { code: "fn  main( ){ }".to_string() });
    let job = job.advance(Report::SourceWritten(Ok(())));
    let job = job.advance(Report::Ran(Ok(ended(Termination::Exited(0), b"", b""))));
    let job = job.advance(Report::ArtifactRead(Ok("fn main() {}\n".to_string())));
    let conclusion = released(job, &mut pool);
    assert_eq!(
        conclusion.outcome,
        Some(Ok(Response::Format(FormatResponse {
            success: true,
            code: "fn main() {}\n".to_string(),
            stdout: String::new(),
            stderr: String::new(),
        })))
    );
}

#[test]
fn a_failed_formatting_returns_the_submitted_code() {
    let mut pool = Pool::new(1);
    let job = sandbox(&mut pool).format(FormatRequest { code: "fn main( {".to_string() });
    let job = job.advance(Report::SourceWritten(Ok(())));
    let job = job.advance(Report::Ran(Ok(ended(Termination::Exited(1), b"", b"error: bad"))));
    let conclusion = released(job, &mut pool);
    assert_eq!(
        conclusion.outcome,
        Some(Ok(Response::Format(FormatResponse {
            success: false,
            code: "fn main( {".to_string(),
            stdout: String::new(),
            stderr: "error: bad".to_string(),
        })))
    );
}

#[test]
fn a_source_that_cannot_be_written_is_an_io_failure() {
    let mut pool = Pool::new(1);
    let job = sandbox(&mut pool).execute(execute_request("fn main(){}"));
    let job = job.advance(Report::SourceWritten(Err("disk full".to_string())));
    let conclusion = released(job, &mut pool);
    assert_eq!(conclusion.outcome, Some(Err(Error::IoFailure("disk full".to_string()))));
    assert_eq!(conclusion.run, None);
}

#[test]
fn a_command_that_cannot_be_started_is_an_io_failure() {
    let mut pool = Pool::new(1);
    let job = sandbox(&mut pool).execute(execute_request("fn main(){}"));
    let job = job.advance(Report::SourceWritten(Ok(())));
    let job = job.advance(Report::Ran(Err("no such program".to_string())));
    let conclusion = released(job, &mut pool);
    assert_eq!(conclusion.outcome, Some(Err(Error::IoFailure("no such program".to_string()))));
}

#[test]
fn an_artifact_that_cannot_be_read_is_an_io_failure() {
    let mut pool = Pool::new(1);
    let job = sandbox(&mut pool).compile(compile_request("fn main(){}"));
    let job = job.advance(Report::SourceWritten(Ok(())));
    let job = job.advance(Report::Ran(Ok(ended(Termination::Exited(0), b"out", b"err"))));
    let job = job.advance(Report::ArtifactRead(Err("not found".to_string())));
    let conclusion = released(job, &mut pool);
    assert_eq!(conclusion.outcome, Some(Err(Error::IoFailure("not found".to_string()))));
}

#[test]
fn an_abandoned_operation_still_releases_the_environment() {
    for steps in 0..3 {
        let mut pool = Pool::new(1);
        let mut job = sandbox(&mut pool).compile(compile_request("fn main(){}"));
        if steps >= 1 {
            job = job.advance(Report::SourceWritten(Ok(())));
        }
        if steps >= 2 {
            job = job.advance(Report::Ran(Ok(ended(Termination::Exited(0), b"", b""))));
        }
        assert_eq!(job.phase(), Phase::Busy);
        let job = job.advance(Report::Abandoned);
        assert_eq!(
            job.action(),
            Action::Release { command: release_command(0, false), timeout_ms: 2_000 }
        );
        let conclusion = released(job, &mut pool);
        assert_eq!(conclusion.outcome, None);
        assert!(conclusion.released);
        assert_eq!(pool.busy_count(), 0);
    }
}

#[test]
fn a_report_out_of_turn_ends_the_operation() {
    let mut pool = Pool::new(1);
    let job = sandbox(&mut pool).execute(execute_request("fn main(){}"));
    let job = job.advance(Report::ArtifactRead(Ok("text".to_string())));
    assert_eq!(job.stage(), Stage::Releasing);
    let conclusion = released(job, &mut pool);
    assert_eq!(conclusion.outcome, None);
}

#[test]
fn a_release_that_stalls_is_forced() {
    let mut pool = Pool::new(1);
    let job = sandbox(&mut pool).execute(execute_request("fn main(){}"));
    let job = job.advance(Report::SourceWritten(Ok(())));
    let job = job.advance(Report::Ran(Ok(ended(Termination::Exited(0), b"hi", b""))));
    let job = job.advance(Report::Released(Err("timed out".to_string())));
    assert_eq!(job.stage(), Stage::ForcingRelease);
    assert_eq!(
        job.action(),
        Action::Release { command: release_command(0, true), timeout_ms: 5_000 }
    );
    let job = job.advance(Report::Released(Ok(())));
    assert_eq!(job.stage(), Stage::Finished);
    let conclusion = job.conclude(&mut pool).unwrap();
    assert!(conclusion.released);
    assert_eq!(conclusion.teardown_error, None);
    assert_eq!(
        conclusion.outcome,
        Some(Ok(Response::Execute(ExecuteResponse {
            success: true,
            stdout: "hi".to_string(),
            stderr: String::new(),
        })))
    );
}

#[test]
fn a_release_that_fails_is_recorded_and_keeps_the_response() {
    let mut pool = Pool::new(1);
    let job = sandbox(&mut pool).execute(execute_request("fn main(){}"));
    let job = job.advance(Report::SourceWritten(Ok(())));
    let job = job.advance(Report::Ran(Ok(ended(Termination::Exited(0), b"hi", b""))));
    let job = job.advance(Report::Released(Err("timed out".to_string())));
    let job = job.advance(Report::Released(Err("device busy".to_string())));
    assert_eq!(job.stage(), Stage::Finished);
    let conclusion = job.conclude(&mut pool).unwrap();
    assert!(!conclusion.released);
    assert_eq!(conclusion.teardown_error, Some(Error::TeardownFailed("device busy".to_string())));
    assert_eq!(
        conclusion.outcome,
        Some(Ok(Response::Execute(ExecuteResponse {
            success: true,
            stdout: "hi".to_string(),
            stderr: String::new(),
        })))
    );
    assert_eq!(pool.busy_count(), 0);
}

#[test]
fn a_forced_release_that_is_given_up_is_recorded() {
    let mut pool = Pool::new(1);
    let job = sandbox(&mut pool).discard();
    let job = job.advance(Report::Abandoned);
    assert_eq!(job.stage(), Stage::ForcingRelease);
    let job = job.advance(Report::Abandoned);
    assert_eq!(job.stage(), Stage::Finished);
    let conclusion = job.conclude(&mut pool).unwrap();
    assert_eq!(
        conclusion.teardown_error,
        Some(Error::TeardownFailed("the release was abandoned".to_string()))
    );
    assert_eq!(RELEASE_ABANDONED, "the release was abandoned");
}

#[test]
fn a_finished_job_ignores_further_reports() {
    let mut pool = Pool::new(1);
    let job = sandbox(&mut pool).execute(execute_request("fn main(){}"));
    let job = job.advance(Report::SourceWritten(Ok(())));
    let job = job.advance(Report::Ran(Ok(ended(Termination::Exited(0), b"", b""))));
    let job = job.advance(Report::Released(Ok(())));
    let job = job.advance(Report::Released(Ok(())));
    let job = job.advance(Report::Released(Err("again".to_string())));
    let job = job.advance(Report::Ran(Err("again".to_string())));
    let job = job.advance(Report::Abandoned);
    assert_eq!(job.stage(), Stage::Finished);
    let conclusion = job.conclude(&mut pool).unwrap();
    assert!(conclusion.released);
    assert_eq!(conclusion.teardown_error, None);
    assert_eq!(
        conclusion.outcome,
        Some(Ok(Response::Execute(ExecuteResponse {
            success: true,
            stdout: String::new(),
            stderr: String::new(),
        })))
    );
}

#[test]
fn five_reports_finish_any_job() {
    let reports = || {
        vec![
            Report::SourceWritten(Ok(())),
            Report::Ran(Ok(ended(Termination::Exited(0), b"", b""))),
            Report::ArtifactRead(Ok(String::new())),
            Report::Released(Err("x".to_string())),
            Report::Released(Err("y".to_string())),
            Report::Abandoned,
        ]
    };
    for first in 0..6 {
        for second in 0..6 {
            let mut pool = Pool::new(1);
            let mut job = sandbox(&mut pool).compile(compile_request("fn main(){}"));
            let order = [first, second, 2, 3, 4];
            for index in order {
                let report = reports().swap_remove(index);
                job = job.advance(report);
            }
            assert_eq!(job.stage(), Stage::Finished);
            assert!(job.conclude(&mut pool).is_ok());
            assert_eq!(pool.busy_count(), 0);
        }
    }
}

#[test]
fn a_job_is_not_concluded_before_it_is_finished() {
    let mut pool = Pool::new(1);
    let job = sandbox(&mut pool).execute(execute_request("fn main(){}"));
    let job = match job.conclude(&mut pool) {
        Ok(_) => panic!("concluded at the start"),
        Err(job) => job,
    };
    assert_eq!(job.stage(), Stage::WritingSource);
    assert_eq!(job.id(), 0);
    assert_eq!(job.workdir(), "/tmp/box");
    assert_eq!(pool.busy_count(), 1);
    let job = job.advance(Report::Abandoned);
    let job = match job.conclude(&mut pool) {
        Ok(_) => panic!("concluded before the release"),
        Err(job) => job,
    };
    assert_eq!(pool.busy_count(), 1);
    let conclusion = released(job, &mut pool);
    assert_eq!(conclusion.outcome, None);
    assert_eq!(pool.busy_count(), 0);
}

#[test]
fn output_that_is_not_text_is_decoded_leniently() {
    let mut pool = Pool::new(1);
    let job = sandbox(&mut pool).execute(execute_request("fn main(){}"));
    let job = job.advance(Report::SourceWritten(Ok(())));
    let job = job.advance(Report::Ran(Ok(ended(Termination::Exited(0), b"a\xffb", b"\xe2\x9c\x93"))));
    let conclusion = released(job, &mut pool);
    assert_eq!(
        conclusion.outcome,
        Some(Ok(Response::Execute(ExecuteResponse {
            success: true,
            stdout: "a\u{fffd}b".to_string(),
            stderr: "\u{2713}".to_string(),
        })))
    );
}

#[test]
fn the_pipeline_settles_what_needs_no_file() {
    let run = transcribe(&ended(Termination::Signaled(11), b"out", b"err"));
    assert_eq!(
        run,
        Transcript {
            termination: Termination::Signaled(11),
            stdout: "out".to_string(),
            stderr: "err".to_string(),
        }
    );
    let execute = Request::Execute(execute_request("x"));
    assert_eq!(
        settle(&execute, &run),
        Some(Ok(Response::Execute(ExecuteResponse {
            success: false,
            stdout: "out".to_string(),
            stderr: "err".to_string(),
        })))
    );
    let clean = transcribe(&ended(Termination::Exited(0), b"out", b""));
    assert_eq!(
        settle(&execute, &clean),
        Some(Ok(Response::Execute(ExecuteResponse {
            success: true,
            stdout: "out".to_string(),
            stderr: String::new(),
        })))
    );
    let compile = Request::Compile(compile_request("x"));
    assert_eq!(settle(&compile, &clean), None);
    let format = Request::Format(FormatRequest { code: "x".to_string() });
    assert_eq!(settle(&format, &clean), None);
    let stopped = transcribe(&ended(Termination::Limit(LimitKind::Output), b"o", b"e"));
    assert_eq!(
        settle(&format, &stopped),
        Some(Err(Error::LimitExceeded {
            kind: LimitKind::Output,
            stdout: "o".to_string(),
            stderr: "e".to_string(),
        }))
    );
}

#[test]
fn the_pipeline_completes_with_the_file() {
    let compile = Request::Compile(compile_request("x"));
    assert_eq!(
        complete(&compile, "o".to_string(), "e".to_string(), "asm".to_string()),
        Response::Compile(CompileResponse {
            success: true,
            code: "asm".to_string(),
            stdout: "o".to_string(),
            stderr: "e".to_string(),
        })
    );
    let format = Request::Format(FormatRequest { code: "x".to_string() });
    assert_eq!(
        complete(&format, String::new(), String::new(), "y".to_string()),
        Response::Format(FormatResponse {
            success: true,
            code: "y".to_string(),
            stdout: String::new(),
            stderr: String::new(),
        })
    );
    assert_eq!(artifact_path(Operation::Compile), Some("compilation"));
    assert_eq!(artifact_path(Operation::Format), Some("src/main.rs"));
    assert_eq!(artifact_path(Operation::Execute), None);
}

#[test]
fn a_conclusion_gives_the_result_of_its_operation() {
    let conclusion = |outcome| Conclusion {
        id: 3,
        outcome,
        run: None,
        released: true,
        teardown_error: None,
    };
    let compile = CompileResponse {
        success: true,
        code: "asm".to_string(),
        stdout: String::new(),
        stderr: String::new(),
    };
    let execute =
        ExecuteResponse { success: false, stdout: "o".to_string(), stderr: "e".to_string() };
    let format = FormatResponse {
        success: true,
        code: "c".to_string(),
        stdout: String::new(),
        stderr: String::new(),
    };
    assert_eq!(
        conclusion(Some(Ok(Response::Compile(compile.clone())))).into_compile(),
        Ok(compile.clone())
    );
    assert_eq!(
        conclusion(Some(Ok(Response::Execute(execute.clone())))).into_execute(),
        Ok(execute.clone())
    );
    assert_eq!(
        conclusion(Some(Ok(Response::Format(format.clone())))).into_format(),
        Ok(format.clone())
    );
    assert_eq!(
        conclusion(Some(Err(Error::ResourcesExhausted))).into_compile(),
        Err(Error::ResourcesExhausted)
    );
    assert_eq!(
        conclusion(Some(Err(Error::IoFailure("x".to_string())))).into_execute(),
        Err(Error::IoFailure("x".to_string()))
    );
    assert_eq!(
        conclusion(Some(Err(Error::IoFailure("y".to_string())))).into_format(),
        Err(Error::IoFailure("y".to_string()))
    );
}

#[test]
fn a_conclusion_without_a_response_is_an_abandoned_operation() {
    let conclusion = |outcome| Conclusion {
        id: 3,
        outcome,
        run: None,
        released: true,
        teardown_error: None,
    };
    let abandoned = Error::IoFailure("the operation was abandoned".to_string());
    assert_eq!(conclusion(None).into_compile(), Err(abandoned.clone()));
    assert_eq!(conclusion(None).into_execute(), Err(abandoned.clone()));
    assert_eq!(conclusion(None).into_format(), Err(abandoned.clone()));
    let execute = ExecuteResponse { success: true, stdout: String::new(), stderr: String::new() };
    assert_eq!(
        conclusion(Some(Ok(Response::Execute(execute.clone())))).into_compile(),
        Err(abandoned.clone())
    );
    assert_eq!(
        conclusion(Some(Ok(Response::Execute(execute)))).into_format(),
        Err(abandoned.clone())
    );
    assert_eq!(abandoned.message(), "Sandbox I/O failed: the operation was abandoned");
}
