//! The values that cross the boundary of the sandbox: what a caller asks
//! for and what it gets back.

use vstd::prelude::*;

verus! {

/// The release line of the toolchain that an operation runs.
#[derive(Clone, Copy, Debug, PartialEq, Eq, Structural)]
pub enum Channel {
    Stable,
    Beta,
    Nightly,
}

/// The build profile.
#[derive(Clone, Copy, Debug, PartialEq, Eq, Structural)]
pub enum Mode {
    Debug,
    Release,
}

/// The kind of compiler output that a compile operation hands back.
#[derive(Clone, Copy, Debug, PartialEq, Eq, Structural)]
pub enum CompileTarget {
    Assembly,
    LlvmIr,
}

/// The three operations that a sandbox can run.
#[derive(Clone, Copy, Debug, PartialEq, Eq, Structural)]
pub enum Operation {
    Compile,
    Execute,
    Format,
}

/// A request to compile `code` and to hand back the compiler's output of
/// the kind `target`.
#[derive(Clone, Debug, PartialEq, Eq)]
pub struct CompileRequest {
    pub target: CompileTarget,
    pub channel: Channel,
    pub mode: Mode,
    pub tests: bool,
    pub code: String,
}

/// A request to build `code` and to run it: as a program, or as its
/// tests.
#[derive(Clone, Debug, PartialEq, Eq)]
pub struct ExecuteRequest {
    pub channel: Channel,
    pub mode: Mode,
    pub tests: bool,
    pub code: String,
}

/// A request to format `code`.
#[derive(Clone, Debug, PartialEq, Eq)]
pub struct FormatRequest {
    pub code: String,
}

/// One request, whichever operation it asks for.
#[derive(Clone, Debug, PartialEq, Eq)]
pub enum Request {
    Compile(CompileRequest),
    Execute(ExecuteRequest),
    Format(FormatRequest),
}

/// How a compilation went: `code` is the compiler's output, and empty
/// where there is none.
#[derive(Clone, Debug, PartialEq, Eq)]
pub struct CompileResponse {
    pub success: bool,
    pub code: String,
    pub stdout: String,
    pub stderr: String,
}

/// How an execution went.
#[derive(Clone, Debug, PartialEq, Eq)]
pub struct ExecuteResponse {
    pub success: bool,
    pub stdout: String,
    pub stderr: String,
}

/// How a formatting went: `code` is the formatted source, or the
/// submitted source where the formatter failed.
#[derive(Clone, Debug, PartialEq, Eq)]
pub struct FormatResponse {
    pub success: bool,
    pub code: String,
    pub stdout: String,
    pub stderr: String,
}

/// One response, whichever operation produced it.
#[derive(Clone, Debug, PartialEq, Eq)]
pub enum Response {
    Compile(CompileResponse),
    Execute(ExecuteResponse),
    Format(FormatResponse),
}

pub struct CompileRequestView {
    pub target: CompileTarget,
    pub channel: Channel,
    pub mode: Mode,
    pub tests: bool,
    pub code: Seq<char>,
}

pub struct ExecuteRequestView {
    pub channel: Channel,
    pub mode: Mode,
    pub tests: bool,
    pub code: Seq<char>,
}

pub struct FormatRequestView {
    pub code: Seq<char>,
}

pub enum RequestView {
    Compile(CompileRequestView),
    Execute(ExecuteRequestView),
    Format(FormatRequestView),
}

pub struct CompileResponseView {
    pub success: bool,
    pub code: Seq<char>,
    pub stdout: Seq<char>,
    pub stderr: Seq<char>,
}

pub struct ExecuteResponseView {
    pub success: bool,
    pub stdout: Seq<char>,
    pub stderr: Seq<char>,
}

pub struct FormatResponseView {
    pub success: bool,
    pub code: Seq<char>,
    pub stdout: Seq<char>,
    pub stderr: Seq<char>,
}

pub enum ResponseView {
    Compile(CompileResponseView),
    Execute(ExecuteResponseView),
    Format(FormatResponseView),
}

impl View for CompileRequest {
    type V = CompileRequestView;

    open spec fn view(&self) -> CompileRequestView {
        CompileRequestView {
            target: self.target,
            channel: self.channel,
            mode: self.mode,
            tests: self.tests,
            code: self.code@,
        }
    }
}

impl View for ExecuteRequest {
    type V = ExecuteRequestView;

    open spec fn view(&self) -> ExecuteRequestView {
        ExecuteRequestView {
            channel: self.channel,
            mode: self.mode,
            tests: self.tests,
            code: self.code@,
        }
    }
}

impl View for FormatRequest {
    type V = FormatRequestView;

    open spec fn view(&self) -> FormatRequestView {
        FormatRequestView { code: self.code@ }
    }
}

impl View for Request {
    type V = RequestView;

    open spec fn view(&self) -> RequestView {
        match self {
            Request::Compile(r) => RequestView::Compile(r@),
            Request::Execute(r) => RequestView::Execute(r@),
            Request::Format(r) => RequestView::Format(r@),
        }
    }
}

impl View for CompileResponse {
    type V = CompileResponseView;

    open spec fn view(&self) -> CompileResponseView {
        CompileResponseView {
            success: self.success,
            code: self.code@,
            stdout: self.stdout@,
            stderr: self.stderr@,
        }
    }
}

impl View for ExecuteResponse {
    type V = ExecuteResponseView;

    open spec fn view(&self) -> ExecuteResponseView {
        ExecuteResponseView { success: self.success, stdout: self.stdout@, stderr: self.stderr@ }
    }
}

impl View for FormatResponse {
    type V = FormatResponseView;

    open spec fn view(&self) -> FormatResponseView {
        FormatResponseView {
            success: self.success,
            code: self.code@,
            stdout: self.stdout@,
            stderr: self.stderr@,
        }
    }
}

impl View for Response {
    type V = ResponseView;

    open spec fn view(&self) -> ResponseView {
        match self {
            Response::Compile(r) => ResponseView::Compile(r@),
            Response::Execute(r) => ResponseView::Execute(r@),
            Response::Format(r) => ResponseView::Format(r@),
        }
    }
}

impl RequestView {
    /// The operation that the request asks for.
    pub open spec fn operation(self) -> Operation {
        match self {
            RequestView::Compile(_) => Operation::Compile,
            RequestView::Execute(_) => Operation::Execute,
            RequestView::Format(_) => Operation::Format,
        }
    }

    /// The source text that the request carries.
    pub open spec fn code(self) -> Seq<char> {
        match self {
            RequestView::Compile(r) => r.code,
            RequestView::Execute(r) => r.code,
            RequestView::Format(r) => r.code,
        }
    }
}

impl ResponseView {
    /// The operation that produced the response.
    pub open spec fn operation(self) -> Operation {
        match self {
            ResponseView::Compile(_) => Operation::Compile,
            ResponseView::Execute(_) => Operation::Execute,
            ResponseView::Format(_) => Operation::Format,
        }
    }

    pub open spec fn success(self) -> bool {
        match self {
            ResponseView::Compile(r) => r.success,
            ResponseView::Execute(r) => r.success,
            ResponseView::Format(r) => r.success,
        }
    }

    pub open spec fn stdout(self) -> Seq<char> {
        match self {
            ResponseView::Compile(r) => r.stdout,
            ResponseView::Execute(r) => r.stdout,
            ResponseView::Format(r) => r.stdout,
        }
    }

    pub open spec fn stderr(self) -> Seq<char> {
        match self {
            ResponseView::Compile(r) => r.stderr,
            ResponseView::Execute(r) => r.stderr,
            ResponseView::Format(r) => r.stderr,
        }
    }
}

impl Request {
    /// The operation that the request asks for.
    pub fn operation(&self) -> (op: Operation)
        ensures
            op == self@.operation(),
    {
        match self {
            Request::Compile(_) => Operation::Compile,
            Request::Execute(_) => Operation::Execute,
            Request::Format(_) => Operation::Format,
        }
    }
}

} // verus!
