use playground::capture::Stream;
use playground::error::LimitKind;
use playground::limits::{Limits, Usage};
use playground::monitor::{Captured, Directive, Event, Exit, Monitor, Termination, Watch};

fn limits() -> Limits {
    Limits { wall_clock_ms: 1_000, cpu_ms: 500, memory_bytes: 4_096, processes: 8, output_bytes: 8 }
}

fn calm() -> Event {
    Event::Sample(Usage { cpu_ms: 1, memory_bytes: 100, processes: 1 })
}

fn output(stream: Stream, bytes: &[u8]) -> Event {
    Event::Output { stream, chunk: bytes.to_vec() }
}

#[test]
fn a_command_that_exits_keeps_its_status() {
    let mut monitor = Monitor::new(limits(), 50);
    assert_eq!(monitor.watch(), Watch::Running);
    assert_eq!(monitor.observe(10, output(Stream::Stdout, b"hi")), Directive::Wait { ms: 50 });
    assert_eq!(monitor.observe(20, calm()), Directive::Wait { ms: 50 });
    assert_eq!(monitor.observe(30, Event::Ended(Exit::Code(3))), Directive::Collect);
    assert_eq!(monitor.watch(), Watch::Done(Termination::Exited(3)));
    assert_eq!(
        monitor.finish(),
        Some(Captured {
            termination: Termination::Exited(3),
            stdout: b"hi".to_vec(),
            stderr: Vec::new(),
            truncated: false,
        })
    );
}

#[test]
fn a_command_that_is_signalled_is_not_a_limit() {
    let mut monitor = Monitor::new(limits(), 50);
    assert_eq!(monitor.observe(30, Event::Ended(Exit::Signal(6))), Directive::Collect);
    assert_eq!(
        monitor.finish().map(|c| c.termination),
        Some(Termination::Signaled(6))
    );
}

#[test]
fn nothing_is_collected_before_the_end() {
    let mut monitor = Monitor::new(limits(), 50);
    monitor.observe(10, calm());
    assert_eq!(monitor.finish(), None);
    let mut monitor = Monitor::new(limits(), 50);
    monitor.observe(2_000, calm());
    assert_eq!(monitor.watch(), Watch::Stopping(LimitKind::WallClock));
    assert_eq!(monitor.finish(), None);
}

#[test]
fn the_wait_shrinks_towards_the_deadline() {
    let mut monitor = Monitor::new(limits(), 50);
    assert_eq!(monitor.observe(0, calm()), Directive::Wait { ms: 50 });
    assert_eq!(monitor.observe(950, calm()), Directive::Wait { ms: 50 });
    assert_eq!(monitor.observe(975, calm()), Directive::Wait { ms: 25 });
    assert_eq!(monitor.observe(999, output(Stream::Stderr, b"x")), Directive::Wait { ms: 1 });
}

#[test]
fn an_endless_loop_is_stopped_at_the_deadline() {
    let mut monitor = Monitor::new(limits(), 50);
    assert_eq!(monitor.observe(500, output(Stream::Stdout, b"tick")), Directive::Wait { ms: 50 });
    assert_eq!(monitor.observe(1_000, calm()), Directive::Terminate(LimitKind::WallClock));
    assert_eq!(monitor.observe(1_001, calm()), Directive::Terminate(LimitKind::WallClock));
    assert_eq!(monitor.observe(1_002, output(Stream::Stdout, b"late")), Directive::Terminate(LimitKind::WallClock));
    assert_eq!(monitor.observe(1_010, Event::Ended(Exit::Signal(9))), Directive::Collect);
    assert_eq!(
        monitor.finish(),
        Some(Captured {
            termination: Termination::Limit(LimitKind::WallClock),
            stdout: b"tick".to_vec(),
            stderr: Vec::new(),
            truncated: false,
        })
    );
}

#[test]
fn output_at_the_deadline_is_kept_and_the_command_stopped() {
    let mut monitor = Monitor::new(limits(), 50);
    assert_eq!(
        monitor.observe(1_000, output(Stream::Stderr, b"last")),
        Directive::Terminate(LimitKind::WallClock)
    );
    monitor.observe(1_005, Event::Ended(Exit::Code(0)));
    let captured = monitor.finish().unwrap();
    assert_eq!(captured.termination, Termination::Limit(LimitKind::WallClock));
    assert_eq!(captured.stderr, b"last");
}

#[test]
fn a_command_that_takes_too_much_memory_is_stopped() {
    let mut monitor = Monitor::new(limits(), 50);
    let greedy = Event::Sample(Usage { cpu_ms: 10, memory_bytes: 4_097, processes: 1 });
    assert_eq!(monitor.observe(100, greedy), Directive::Terminate(LimitKind::Memory));
    assert_eq!(monitor.observe(110, Event::Ended(Exit::Signal(9))), Directive::Collect);
    assert_eq!(
        monitor.finish().map(|c| c.termination),
        Some(Termination::Limit(LimitKind::Memory))
    );
}

#[test]
fn processor_time_and_process_count_are_limits_too() {
    let mut monitor = Monitor::new(limits(), 50);
    let busy = Event::Sample(Usage { cpu_ms: 501, memory_bytes: 0, processes: 1 });
    assert_eq!(monitor.observe(100, busy), Directive::Terminate(LimitKind::CpuTime));
    let mut monitor = Monitor::new(limits(), 50);
    let forking = Event::Sample(Usage { cpu_ms: 0, memory_bytes: 0, processes: 9 });
    assert_eq!(monitor.observe(100, forking), Directive::Terminate(LimitKind::Processes));
}

#[test]
fn the_deadline_comes_before_other_limits() {
    let mut monitor = Monitor::new(limits(), 50);
    let greedy = Event::Sample(Usage { cpu_ms: 501, memory_bytes: 4_097, processes: 9 });
    assert_eq!(monitor.observe(1_000, greedy), Directive::Terminate(LimitKind::WallClock));
}

#[test]
fn too_much_output_is_cut_and_the_command_stopped() {
    let mut monitor = Monitor::new(limits(), 50);
    assert_eq!(monitor.observe(1, output(Stream::Stdout, b"12345")), Directive::Wait { ms: 50 });
    assert_eq!(
        monitor.observe(2, output(Stream::Stderr, b"abcdef")),
        Directive::Terminate(LimitKind::Output)
    );
    assert_eq!(
        monitor.observe(3, output(Stream::Stdout, b"more")),
        Directive::Terminate(LimitKind::Output)
    );
    assert_eq!(monitor.observe(4, Event::Ended(Exit::Code(0))), Directive::Collect);
    assert_eq!(
        monitor.finish(),
        Some(Captured {
            termination: Termination::Limit(LimitKind::Output),
            stdout: b"12345".to_vec(),
            stderr: b"abc".to_vec(),
            truncated: true,
        })
    );
}

#[test]
fn output_that_just_fits_is_no_breach() {
    let mut monitor = Monitor::new(limits(), 50);
    assert_eq!(monitor.observe(1, output(Stream::Stdout, b"12345678")), Directive::Wait { ms: 50 });
    assert_eq!(monitor.observe(2, output(Stream::Stdout, b"")), Directive::Wait { ms: 50 });
    assert_eq!(monitor.observe(3, Event::Ended(Exit::Code(0))), Directive::Collect);
    let captured = monitor.finish().unwrap();
    assert_eq!(captured.termination, Termination::Exited(0));
    assert!(captured.termination.is_clean());
    assert!(!captured.truncated);
    assert_eq!(captured.stdout.len(), 8);
}

#[test]
fn the_end_once_known_stays() {
    let mut monitor = Monitor::new(limits(), 50);
    monitor.observe(1, Event::Ended(Exit::Code(1)));
    assert_eq!(monitor.observe(2, output(Stream::Stdout, b"late")), Directive::Collect);
    assert_eq!(monitor.observe(5_000, calm()), Directive::Collect);
    assert_eq!(monitor.observe(5_001, Event::Ended(Exit::Code(0))), Directive::Collect);
    assert_eq!(
        monitor.finish(),
        Some(Captured {
            termination: Termination::Exited(1),
            stdout: Vec::new(),
            stderr: Vec::new(),
            truncated: false,
        })
    );
}

#[test]
fn only_status_zero_is_clean() {
    assert!(Termination::Exited(0).is_clean());
    assert!(!Termination::Exited(1).is_clean());
    assert!(!Termination::Exited(-1).is_clean());
    assert!(!Termination::Signaled(0).is_clean());
    assert!(!Termination::Limit(LimitKind::WallClock).is_clean());
}
