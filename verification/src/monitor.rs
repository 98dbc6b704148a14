//! The watch over one running command. The driver reports what it sees:
//! output, a reading of what the command uses, the command's end. The
//! monitor answers what to do next, and in the end says how the command
//! ended and what it had printed.

use crate::capture::{Capture, CaptureView, Stream};
use crate::error::LimitKind;
use crate::limits::{Limits, Usage};
use vstd::prelude::*;

verus! {

/// How long the driver waits between two readings, in milliseconds.
pub const POLL_MS: u64 = 100;

/// How the system says that a process ended.
#[derive(Clone, Copy, Debug, PartialEq, Eq, Structural)]
pub enum Exit {
    /// It exited with this status.
    Code(i32),
    /// It was ended by this signal.
    Signal(i32),
}

/// How a command ended.
#[derive(Clone, Copy, Debug, PartialEq, Eq, Structural)]
pub enum Termination {
    /// The command exited by itself, with this status.
    Exited(i32),
    /// The command was ended by a signal that the monitor did not ask for.
    Signaled(i32),
    /// The monitor had the command ended because it reached this limit.
    Limit(LimitKind),
}

/// Where the watch stands.
#[derive(Clone, Copy, Debug, PartialEq, Eq, Structural)]
pub enum Watch {
    /// The command runs, within its limits as far as is known.
    Running,
    /// The command reached a limit and is being ended.
    Stopping(LimitKind),
    /// The command has ended.
    Done(Termination),
}

/// What the driver saw.
#[derive(Debug)]
pub enum Event {
    /// The command wrote `chunk` to `stream`.
    Output { stream: Stream, chunk: Vec<u8> },
    /// A reading of what the command and its descendants use.
    Sample(Usage),
    /// Nothing was seen: time has passed.
    Tick,
    /// The command has ended.
    Ended(Exit),
}

/// What the driver is to do next.
#[derive(Clone, Copy, Debug, PartialEq, Eq, Structural)]
pub enum Directive {
    /// Wait for the next event, for at most `ms` milliseconds, then take a
    /// reading.
    Wait { ms: u64 },
    /// End the command and all its descendants.
    Terminate(LimitKind),
    /// The command has ended: collect the result.
    Collect,
}

/// The outcome of one command.
#[derive(Clone, Debug, PartialEq, Eq)]
pub struct Captured {
    pub termination: Termination,
    pub stdout: Vec<u8>,
    pub stderr: Vec<u8>,
    /// Whether output was left out because it did not fit.
    pub truncated: bool,
}

/// The watch over one command.
#[derive(Debug)]
pub struct Monitor {
    limits: Limits,
    poll_ms: u64,
    capture: Capture,
    watch: Watch,
}

pub struct MonitorView {
    pub limits: Limits,
    /// How long the driver waits between two readings.
    pub poll_ms: u64,
    pub capture: CaptureView,
    pub watch: Watch,
}

impl Exit {
    /// How a command ended that was not being stopped.
    pub open spec fn unforced(self) -> Termination {
        match self {
            Exit::Code(status) => Termination::Exited(status),
            Exit::Signal(signal) => Termination::Signaled(signal),
        }
    }
}

impl Termination {
    /// Whether the command exited by itself with status zero.
    pub open spec fn clean(self) -> bool {
        self == Termination::Exited(0)
    }

    /// Whether the command exited by itself with status zero.
    pub fn is_clean(&self) -> (r: bool)
        ensures
            r == self.clean(),
    {
        match self {
            Termination::Exited(status) => *status == 0,
            _ => false,
        }
    }
}

impl MonitorView {
    /// The watch at the start of a command.
    pub open spec fn start(limits: Limits, poll_ms: u64) -> MonitorView {
        MonitorView {
            limits,
            poll_ms,
            capture: CaptureView::empty(limits.output_bytes as nat),
            watch: Watch::Running,
        }
    }

    /// The limit that a running command is found to have reached when
    /// `event` is seen `elapsed_ms` after the start. The deadline comes
    /// before every other limit.
    pub open spec fn breach(self, elapsed_ms: u64, event: Event) -> Option<LimitKind> {
        if self.limits.expired(elapsed_ms) {
            Some(LimitKind::WallClock)
        } else {
            match event {
                Event::Sample(usage) => self.limits.exceeded(usage),
                Event::Output { stream, chunk } => if chunk@.len() > self.capture.room() {
                    Some(LimitKind::Output)
                } else {
                    None
                },
                Event::Tick => None,
                Event::Ended(_) => None,
            }
        }
    }

    /// What is kept after `event`: output is taken in while the command
    /// runs within its limits, and not after.
    pub open spec fn capture_after(self, event: Event) -> CaptureView {
        match (self.watch, event) {
            (Watch::Running, Event::Output { stream, chunk }) => self.capture.offer(
                stream,
                chunk@,
            ),
            _ => self.capture,
        }
    }

    /// Where the watch stands after `event`.
    pub open spec fn watch_after(self, elapsed_ms: u64, event: Event) -> Watch {
        match self.watch {
            Watch::Running => match event {
                Event::Ended(exit) => Watch::Done(exit.unforced()),
                _ => match self.breach(elapsed_ms, event) {
                    Some(kind) => Watch::Stopping(kind),
                    None => Watch::Running,
                },
            },
            Watch::Stopping(kind) => match event {
                Event::Ended(_) => Watch::Done(Termination::Limit(kind)),
                _ => Watch::Stopping(kind),
            },
            Watch::Done(termination) => Watch::Done(termination),
        }
    }

    /// The monitor after `event` was seen `elapsed_ms` after the start.
    pub open spec fn after(self, elapsed_ms: u64, event: Event) -> MonitorView {
        MonitorView {
            limits: self.limits,
            poll_ms: self.poll_ms,
            capture: self.capture_after(event),
            watch: self.watch_after(elapsed_ms, event),
        }
    }

    /// What the driver is to do once the watch stands at `watch`.
    pub open spec fn directive(self, elapsed_ms: u64) -> Directive {
        match self.watch {
            Watch::Running => Directive::Wait {
                ms: self.limits.allowance(elapsed_ms, self.poll_ms) as u64,
            },
            Watch::Stopping(kind) => Directive::Terminate(kind),
            Watch::Done(_) => Directive::Collect,
        }
    }
}

impl View for Monitor {
    type V = MonitorView;

    closed spec fn view(&self) -> MonitorView {
        MonitorView {
            limits: self.limits,
            poll_ms: self.poll_ms,
            capture: self.capture@,
            watch: self.watch,
        }
    }
}

impl Monitor {
    /// The watch over a command that has just been started.
    pub fn new(limits: Limits, poll_ms: u64) -> (r: Monitor)
        ensures
            r@ == MonitorView::start(limits, poll_ms),
    {
        Monitor { limits, poll_ms, capture: Capture::new(limits.output_bytes), watch: Watch::Running }
    }

    /// Where the watch stands.
    pub fn watch(&self) -> (r: Watch)
        ensures
            r == self@.watch,
    {
        self.watch
    }

    /// Takes in what the driver saw `elapsed_ms` after the start, and says
    /// what to do next.
    pub fn observe(&mut self, elapsed_ms: u64, event: Event) -> (directive: Directive)
        ensures
            final(self)@ == old(self)@.after(elapsed_ms, event),
            directive == final(self)@.directive(elapsed_ms),
            final(self)@.capture.within_cap(),
    {
        let room = self.capture.room();
        match self.watch {
            Watch::Running => {
                match event {
                    Event::Ended(exit) => {
                        self.watch = Watch::Done(
                            match exit {
                                Exit::Code(status) => Termination::Exited(status),
                                Exit::Signal(signal) => Termination::Signaled(signal),
                            },
                        );
                    },
                    Event::Sample(usage) => {
                        if self.limits.is_expired(elapsed_ms) {
                            self.watch = Watch::Stopping(LimitKind::WallClock);
                        } else {
                            match self.limits.check(&usage) {
                                Some(kind) => {
                                    self.watch = Watch::Stopping(kind);
                                },
                                None => {},
                            }
                        }
                    },
                    Event::Tick => {
                        if self.limits.is_expired(elapsed_ms) {
                            self.watch = Watch::Stopping(LimitKind::WallClock);
                        }
                    },
                    Event::Output { stream, chunk } => {
                        let fits = chunk.len() <= room;
                        self.capture.offer(stream, chunk.as_slice());
                        if self.limits.is_expired(elapsed_ms) {
                            self.watch = Watch::Stopping(LimitKind::WallClock);
                        } else if !fits {
                            self.watch = Watch::Stopping(LimitKind::Output);
                        }
                    },
                }
            },
            Watch::Stopping(kind) => {
                match event {
                    Event::Ended(_) => {
                        self.watch = Watch::Done(Termination::Limit(kind));
                    },
                    _ => {},
                }
            },
            Watch::Done(_) => {},
        }
        match self.watch {
            Watch::Running => Directive::Wait {
                ms: self.limits.wait_allowance(elapsed_ms, self.poll_ms),
            },
            Watch::Stopping(kind) => Directive::Terminate(kind),
            Watch::Done(_) => Directive::Collect,
        }
    }

    /// The outcome of the command, once it has ended; nothing before.
    pub fn finish(self) -> (r: Option<Captured>)
        ensures
            match self@.watch {
                Watch::Done(termination) => r is Some && r->Some_0.termination == termination
                    && r->Some_0.stdout@ == self@.capture.stdout && r->Some_0.stderr@
                    == self@.capture.stderr && r->Some_0.truncated == self@.capture.truncated,
                _ => r is None,
            },
    {
        match self.watch {
            Watch::Done(termination) => {
                let (stdout, stderr, truncated) = self.capture.into_parts();
                Some(Captured { termination, stdout, stderr, truncated })
            },
            _ => None,
        }
    }
}

/// Whatever a running command is seen to do at or after the deadline,
/// short of ending, the monitor has it ended for the deadline.
pub proof fn lemma_deadline_stops_command(monitor: MonitorView, elapsed_ms: u64, event: Event)
    requires
        monitor.watch == Watch::Running,
        monitor.limits.expired(elapsed_ms),
        !(event is Ended),
    ensures
        monitor.after(elapsed_ms, event).watch == Watch::Stopping(LimitKind::WallClock),
        monitor.after(elapsed_ms, event).directive(elapsed_ms) == Directive::Terminate(
            LimitKind::WallClock,
        ),
{
}

/// A reading over a limit has a running command ended, for a limit that
/// the reading is over or for the deadline.
pub proof fn lemma_excess_stops_command(monitor: MonitorView, elapsed_ms: u64, usage: Usage)
    requires
        monitor.watch == Watch::Running,
        monitor.limits.exceeded(usage) is Some,
    ensures
        monitor.after(elapsed_ms, Event::Sample(usage)).watch matches Watch::Stopping(kind) && (kind
            == LimitKind::WallClock || monitor.limits.exceeded_by(usage, kind)),
{
}

/// A wait that the monitor allows ends at the deadline or before it.
pub proof fn lemma_wait_ends_by_deadline(monitor: MonitorView, elapsed_ms: u64, event: Event)
    ensures
        monitor.after(elapsed_ms, event).directive(elapsed_ms) matches Directive::Wait { ms }
            ==> elapsed_ms + ms <= monitor.limits.wall_clock_ms && ms <= monitor.poll_ms,
{
}

/// A command that the monitor had ended counts as stopped at its limit,
/// whatever the system says of how it ended; one that ended by itself
/// keeps its status.
pub proof fn lemma_end_is_classified(monitor: MonitorView, elapsed_ms: u64, exit: Exit)
    ensures
        monitor.watch matches Watch::Stopping(kind) ==> monitor.after(
            elapsed_ms,
            Event::Ended(exit),
        ).watch == Watch::Done(Termination::Limit(kind)),
        monitor.watch == Watch::Running ==> monitor.after(elapsed_ms, Event::Ended(exit)).watch
            == Watch::Done(exit.unforced()),
        exit.unforced() !is Limit,
{
}

/// Once a command is being ended, or has ended, what was kept of its
/// output stays as it is; and the end, once known, stays what it is.
pub proof fn lemma_outcome_is_settled(monitor: MonitorView, elapsed_ms: u64, event: Event)
    requires
        monitor.watch != Watch::Running,
    ensures
        monitor.after(elapsed_ms, event).capture == monitor.capture,
        monitor.watch is Done ==> monitor.after(elapsed_ms, event) == monitor,
        monitor.after(elapsed_ms, event).watch != Watch::Running,
{
}

/// What is kept never takes more than the limit on output.
pub proof fn lemma_capture_stays_bounded(monitor: MonitorView, elapsed_ms: u64, event: Event)
    requires
        monitor.capture.within_cap(),
    ensures
        monitor.after(elapsed_ms, event).capture.within_cap(),
        monitor.after(elapsed_ms, event).capture.cap == monitor.capture.cap,
        monitor.capture.stdout.is_prefix_of(monitor.after(elapsed_ms, event).capture.stdout),
        monitor.capture.stderr.is_prefix_of(monitor.after(elapsed_ms, event).capture.stderr),
{
}

} // verus!
