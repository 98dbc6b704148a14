//! The failures of the sandbox itself, as opposed to the failures of the
//! code that it runs.

use vstd::prelude::*;
use vstd::string::StringExecFns;

verus! {

/// The resource whose limit a command ran into.
#[derive(Clone, Copy, Debug, PartialEq, Eq, Structural)]
pub enum LimitKind {
    WallClock,
    CpuTime,
    Memory,
    Processes,
    Output,
}

/// What went wrong in the sandbox. A program that fails to build or to run
/// is no error: that is reported in the response.
#[derive(Clone, Debug, PartialEq, Eq)]
pub enum Error {
    /// No environment could be created; no submitted code has run.
    ProvisioningFailed(String),
    /// The source could not be written, the command could not be started,
    /// or its artifact could not be read back.
    IoFailure(String),
    /// The command was stopped at a limit; what it had printed until then
    /// is kept.
    LimitExceeded { kind: LimitKind, stdout: String, stderr: String },
    /// Too many sandboxes were busy; nothing was provisioned.
    ResourcesExhausted,
    /// The environment could not be released. This is recorded beside the
    /// outcome of the operation and never replaces it.
    TeardownFailed(String),
}

pub enum ErrorView {
    ProvisioningFailed(Seq<char>),
    IoFailure(Seq<char>),
    LimitExceeded { kind: LimitKind, stdout: Seq<char>, stderr: Seq<char> },
    ResourcesExhausted,
    TeardownFailed(Seq<char>),
}

impl View for Error {
    type V = ErrorView;

    open spec fn view(&self) -> ErrorView {
        match self {
            Error::ProvisioningFailed(why) => ErrorView::ProvisioningFailed(why@),
            Error::IoFailure(why) => ErrorView::IoFailure(why@),
            Error::LimitExceeded { kind, stdout, stderr } => ErrorView::LimitExceeded {
                kind: *kind,
                stdout: stdout@,
                stderr: stderr@,
            },
            Error::ResourcesExhausted => ErrorView::ResourcesExhausted,
            Error::TeardownFailed(why) => ErrorView::TeardownFailed(why@),
        }
    }
}

impl LimitKind {
    /// The words that name the resource in a message.
    pub open spec fn words(self) -> Seq<char> {
        match self {
            LimitKind::WallClock => "wall-clock time"@,
            LimitKind::CpuTime => "CPU time"@,
            LimitKind::Memory => "memory"@,
            LimitKind::Processes => "process count"@,
            LimitKind::Output => "output size"@,
        }
    }

    /// The words that name the resource in a message.
    pub fn describe(&self) -> (r: &'static str)
        ensures
            r@ == self.words(),
    {
        match self {
            LimitKind::WallClock => "wall-clock time",
            LimitKind::CpuTime => "CPU time",
            LimitKind::Memory => "memory",
            LimitKind::Processes => "process count",
            LimitKind::Output => "output size",
        }
    }
}

impl ErrorView {
    /// The single line of text that stands for the error outside the
    /// sandbox.
    pub open spec fn message(self) -> Seq<char> {
        match self {
            ErrorView::ProvisioningFailed(why) => "Unable to provision the sandbox: "@ + why,
            ErrorView::IoFailure(why) => "Sandbox I/O failed: "@ + why,
            ErrorView::LimitExceeded { kind, .. } => "The operation exceeded its "@ + kind.words()
                + " limit"@,
            ErrorView::ResourcesExhausted => "Too many sandboxes are busy"@,
            ErrorView::TeardownFailed(why) => "Unable to tear down the sandbox: "@ + why,
        }
    }
}

impl Error {
    /// The single line of text that stands for the error outside the
    /// sandbox.
    pub fn message(&self) -> (r: String)
        ensures
            r@ == self@.message(),
    {
        match self {
            Error::ProvisioningFailed(why) => {
                String::from_str("Unable to provision the sandbox: ").concat(why.as_str())
            },
            Error::IoFailure(why) => String::from_str("Sandbox I/O failed: ").concat(why.as_str()),
            Error::LimitExceeded { kind, .. } => {
                String::from_str("The operation exceeded its ").concat(kind.describe()).concat(
                    " limit",
                )
            },
            Error::ResourcesExhausted => String::from_str("Too many sandboxes are busy"),
            Error::TeardownFailed(why) => {
                String::from_str("Unable to tear down the sandbox: ").concat(why.as_str())
            },
        }
    }

    /// Whether the error reports a command stopped at a limit.
    pub fn is_limit_exceeded(&self) -> (r: bool)
        ensures
            r == (self@ is LimitExceeded),
    {
        match self {
            Error::LimitExceeded { .. } => true,
            _ => false,
        }
    }
}

} // verus!
