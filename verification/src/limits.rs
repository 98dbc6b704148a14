//! The limits under which a command runs, and the test that tells which
//! of them a running command has reached.

use crate::error::LimitKind;
use vstd::prelude::*;

verus! {

/// The ceilings that hold for one command, all at once.
#[derive(Clone, Copy, Debug, PartialEq, Eq, Structural)]
pub struct Limits {
    /// The deadline, in milliseconds since the command started.
    pub wall_clock_ms: u64,
    /// The processor time that the command and its descendants may use.
    pub cpu_ms: u64,
    /// The memory that they may hold at any moment.
    pub memory_bytes: u64,
    /// The processes and threads that may exist at any moment.
    pub processes: u64,
    /// The bytes of standard output and standard error, taken together,
    /// that are kept.
    pub output_bytes: usize,
}

/// What a command and its descendants use at one moment.
#[derive(Clone, Copy, Debug, PartialEq, Eq, Structural)]
pub struct Usage {
    pub cpu_ms: u64,
    pub memory_bytes: u64,
    pub processes: u64,
}

impl Limits {
    /// Whether the deadline has come `elapsed_ms` after the start.
    pub open spec fn expired(self, elapsed_ms: u64) -> bool {
        elapsed_ms >= self.wall_clock_ms
    }

    /// Whether `usage` is over the limit of the given kind. The deadline
    /// and the output size are not matters of usage.
    pub open spec fn exceeded_by(self, usage: Usage, kind: LimitKind) -> bool {
        match kind {
            LimitKind::CpuTime => usage.cpu_ms > self.cpu_ms,
            LimitKind::Memory => usage.memory_bytes > self.memory_bytes,
            LimitKind::Processes => usage.processes > self.processes,
            LimitKind::WallClock => false,
            LimitKind::Output => false,
        }
    }

    /// The limit that `usage` is over: processor time before memory before
    /// the process count, where it is over several.
    pub open spec fn exceeded(self, usage: Usage) -> Option<LimitKind> {
        if self.exceeded_by(usage, LimitKind::CpuTime) {
            Some(LimitKind::CpuTime)
        } else if self.exceeded_by(usage, LimitKind::Memory) {
            Some(LimitKind::Memory)
        } else if self.exceeded_by(usage, LimitKind::Processes) {
            Some(LimitKind::Processes)
        } else {
            None
        }
    }

    /// The time that is left until the deadline.
    pub open spec fn remaining(self, elapsed_ms: u64) -> nat {
        if elapsed_ms >= self.wall_clock_ms {
            0
        } else {
            (self.wall_clock_ms - elapsed_ms) as nat
        }
    }

    /// How long a wait may last that starts `elapsed_ms` after the start
    /// and should last `wanted_ms`: never beyond the deadline.
    pub open spec fn allowance(self, elapsed_ms: u64, wanted_ms: u64) -> nat {
        if self.remaining(elapsed_ms) < wanted_ms {
            self.remaining(elapsed_ms)
        } else {
            wanted_ms as nat
        }
    }

    /// The limits that hold where none were configured: ten seconds of
    /// wall-clock and of processor time, 256 MiB of memory, 64 processes,
    /// 64 KiB of output.
    pub open spec fn standard() -> Limits {
        Limits {
            wall_clock_ms: 10_000,
            cpu_ms: 10_000,
            memory_bytes: 268_435_456,
            processes: 64,
            output_bytes: 65_536,
        }
    }

    /// Whether the deadline has come `elapsed_ms` after the start.
    pub fn is_expired(&self, elapsed_ms: u64) -> (r: bool)
        ensures
            r == self.expired(elapsed_ms),
    {
        elapsed_ms >= self.wall_clock_ms
    }

    /// The limit that `usage` is over, if it is over any.
    pub fn check(&self, usage: &Usage) -> (r: Option<LimitKind>)
        ensures
            r == self.exceeded(*usage),
    {
        if usage.cpu_ms > self.cpu_ms {
            Some(LimitKind::CpuTime)
        } else if usage.memory_bytes > self.memory_bytes {
            Some(LimitKind::Memory)
        } else if usage.processes > self.processes {
            Some(LimitKind::Processes)
        } else {
            None
        }
    }

    /// How long a wait may last that starts `elapsed_ms` after the start
    /// and should last `wanted_ms`.
    pub fn wait_allowance(&self, elapsed_ms: u64, wanted_ms: u64) -> (r: u64)
        ensures
            r == self.allowance(elapsed_ms, wanted_ms),
    {
        if elapsed_ms >= self.wall_clock_ms {
            0
        } else {
            let left: u64 = self.wall_clock_ms - elapsed_ms;
            if left < wanted_ms {
                left
            } else {
                wanted_ms
            }
        }
    }
}

impl Default for Limits {
    fn default() -> (r: Limits)
        ensures
            r == Limits::standard(),
    {
        Limits {
            wall_clock_ms: 10_000,
            cpu_ms: 10_000,
            memory_bytes: 268_435_456,
            processes: 64,
            output_bytes: 65_536,
        }
    }
}

/// No limit is reported for usage that is within every limit, and a limit
/// that is reported is one that the usage is over.
pub proof fn lemma_exceeded_is_sound(limits: Limits, usage: Usage)
    ensures
        limits.exceeded(usage) is None <==> forall|kind: LimitKind|
            !limits.exceeded_by(usage, kind),
        limits.exceeded(usage) matches Some(kind) ==> limits.exceeded_by(usage, kind),
{
    if limits.exceeded(usage) is None {
        assert forall|kind: LimitKind| !limits.exceeded_by(usage, kind) by {}
    }
}

/// A wait that is cut to the allowance ends at the deadline or before it,
/// and where the deadline has not come it lasts as long as was asked or
/// until the deadline.
pub proof fn lemma_allowance_stops_at_deadline(limits: Limits, elapsed_ms: u64, wanted_ms: u64)
    ensures
        limits.allowance(elapsed_ms, wanted_ms) <= wanted_ms,
        !limits.expired(elapsed_ms) ==> elapsed_ms + limits.allowance(elapsed_ms, wanted_ms)
            <= limits.wall_clock_ms,
        limits.expired(elapsed_ms) ==> limits.allowance(elapsed_ms, wanted_ms) == 0,
{
}

} // verus!
