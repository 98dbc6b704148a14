//! The request layer's side of the boundary: requests as they arrive, with
//! every choice still a string, their validation, and the reply that goes
//! back.

use crate::error::{Error, ErrorView};
use crate::model;
use crate::model::{Channel, CompileTarget, Mode};
use crate::text::{debug_form, debug_quoted, same_text};
use vstd::prelude::*;
use vstd::std_specs::convert::{FromSpecImpl, TryFromSpecImpl};
use vstd::string::StringExecFns;

verus! {

/// The body of a reply when even the error could not be encoded.
pub const FATAL_ERROR_JSON: &'static str =
    "{\"error\": \"Multiple cascading errors occurred, abandon all hope\"}";

/// Why a request got no response.
#[derive(Clone, Debug, PartialEq, Eq)]
pub enum RequestError {
    Sandbox(Error),
    /// The response could not be encoded; the text is the encoder's own.
    Serialization(String),
    /// The request could not be decoded; the text is the decoder's own.
    Deserialization(String),
    InvalidTarget(String),
    InvalidChannel(String),
    InvalidMode(String),
    RequestMissing,
}

pub enum RequestErrorView {
    Sandbox(ErrorView),
    Serialization(Seq<char>),
    Deserialization(Seq<char>),
    InvalidTarget(Seq<char>),
    InvalidChannel(Seq<char>),
    InvalidMode(Seq<char>),
    RequestMissing,
}

impl View for RequestError {
    type V = RequestErrorView;

    open spec fn view(&self) -> RequestErrorView {
        match self {
            RequestError::Sandbox(err) => RequestErrorView::Sandbox(err@),
            RequestError::Serialization(text) => RequestErrorView::Serialization(text@),
            RequestError::Deserialization(text) => RequestErrorView::Deserialization(text@),
            RequestError::InvalidTarget(value) => RequestErrorView::InvalidTarget(value@),
            RequestError::InvalidChannel(value) => RequestErrorView::InvalidChannel(value@),
            RequestError::InvalidMode(value) => RequestErrorView::InvalidMode(value@),
            RequestError::RequestMissing => RequestErrorView::RequestMissing,
        }
    }
}

impl From<Error> for RequestError {
    fn from(err: Error) -> (r: RequestError) {
        RequestError::Sandbox(err)
    }
}

impl FromSpecImpl<Error> for RequestError {
    open spec fn obeys_from_spec() -> bool {
        true
    }

    open spec fn from_spec(err: Error) -> RequestError {
        RequestError::Sandbox(err)
    }
}

impl RequestErrorView {
    /// The text that is sent in place of a response.
    pub open spec fn message(self) -> Seq<char> {
        match self {
            RequestErrorView::Sandbox(err) => "Sandbox operation failed: "@ + err.message(),
            RequestErrorView::Serialization(text) => "Unable to serialize response: "@ + text,
            RequestErrorView::Deserialization(text) => "Unable to deserialize request: "@ + text,
            RequestErrorView::InvalidTarget(value) => "The value "@ + debug_form(value)
                + " is not a valid target"@,
            RequestErrorView::InvalidChannel(value) => "The value "@ + debug_form(value)
                + " is not a valid channel"@,
            RequestErrorView::InvalidMode(value) => "The value "@ + debug_form(value)
                + " is not a valid mode"@,
            RequestErrorView::RequestMissing => "No request was provided"@,
        }
    }
}

impl RequestError {
    /// The text that is sent in place of a response.
    pub fn message(&self) -> (r: String)
        ensures
            r@ == self@.message(),
    {
        match self {
            RequestError::Sandbox(err) => {
                let inner = err.message();
                String::from_str("Sandbox operation failed: ").concat(inner.as_str())
            },
            RequestError::Serialization(text) => {
                String::from_str("Unable to serialize response: ").concat(text.as_str())
            },
            RequestError::Deserialization(text) => {
                String::from_str("Unable to deserialize request: ").concat(text.as_str())
            },
            RequestError::InvalidTarget(value) => {
                let quoted = debug_quoted(value.as_str());
                String::from_str("The value ").concat(quoted.as_str()).concat(
                    " is not a valid target",
                )
            },
            RequestError::InvalidChannel(value) => {
                let quoted = debug_quoted(value.as_str());
                String::from_str("The value ").concat(quoted.as_str()).concat(
                    " is not a valid channel",
                )
            },
            RequestError::InvalidMode(value) => {
                let quoted = debug_quoted(value.as_str());
                String::from_str("The value ").concat(quoted.as_str()).concat(
                    " is not a valid mode",
                )
            },
            RequestError::RequestMissing => String::from_str("No request was provided"),
        }
    }
}

/// The compile target that a name stands for.
pub open spec fn target_named(s: Seq<char>) -> Option<CompileTarget> {
    if s == "asm"@ {
        Some(CompileTarget::Assembly)
    } else if s == "llvm-ir"@ {
        Some(CompileTarget::LlvmIr)
    } else {
        None
    }
}

/// The channel that a name stands for.
pub open spec fn channel_named(s: Seq<char>) -> Option<Channel> {
    if s == "stable"@ {
        Some(Channel::Stable)
    } else if s == "beta"@ {
        Some(Channel::Beta)
    } else if s == "nightly"@ {
        Some(Channel::Nightly)
    } else {
        None
    }
}

/// The mode that a name stands for.
pub open spec fn mode_named(s: Seq<char>) -> Option<Mode> {
    if s == "debug"@ {
        Some(Mode::Debug)
    } else if s == "release"@ {
        Some(Mode::Release)
    } else {
        None
    }
}

/// Reads a compile target; any name but `asm` and `llvm-ir` is handed back
/// in the error.
pub fn parse_target(s: &str) -> (r: Result<CompileTarget, RequestError>)
    ensures
        match target_named(s@) {
            Some(target) => r == Ok::<CompileTarget, RequestError>(target),
            None => r is Err && r->Err_0@ == RequestErrorView::InvalidTarget(s@),
        },
{
    if same_text(s, "asm") {
        Ok(CompileTarget::Assembly)
    } else if same_text(s, "llvm-ir") {
        Ok(CompileTarget::LlvmIr)
    } else {
        Err(RequestError::InvalidTarget(s.to_owned()))
    }
}

/// Reads a channel; any name but `stable`, `beta` and `nightly` is handed
/// back in the error.
pub fn parse_channel(s: &str) -> (r: Result<Channel, RequestError>)
    ensures
        match channel_named(s@) {
            Some(channel) => r == Ok::<Channel, RequestError>(channel),
            None => r is Err && r->Err_0@ == RequestErrorView::InvalidChannel(s@),
        },
{
    if same_text(s, "stable") {
        Ok(Channel::Stable)
    } else if same_text(s, "beta") {
        Ok(Channel::Beta)
    } else if same_text(s, "nightly") {
        Ok(Channel::Nightly)
    } else {
        Err(RequestError::InvalidChannel(s.to_owned()))
    }
}

/// Reads a mode; any name but `debug` and `release` is handed back in the
/// error.
pub fn parse_mode(s: &str) -> (r: Result<Mode, RequestError>)
    ensures
        match mode_named(s@) {
            Some(mode) => r == Ok::<Mode, RequestError>(mode),
            None => r is Err && r->Err_0@ == RequestErrorView::InvalidMode(s@),
        },
{
    if same_text(s, "debug") {
        Ok(Mode::Debug)
    } else if same_text(s, "release") {
        Ok(Mode::Release)
    } else {
        Err(RequestError::InvalidMode(s.to_owned()))
    }
}

/// A compile request as it arrives.
#[derive(Clone, Debug, PartialEq, Eq)]
pub struct CompileRequest {
    pub target: String,
    pub channel: String,
    pub mode: String,
    pub tests: bool,
    pub code: String,
}

/// An execute request as it arrives.
#[derive(Clone, Debug, PartialEq, Eq)]
pub struct ExecuteRequest {
    pub channel: String,
    pub mode: String,
    pub tests: bool,
    pub code: String,
}

/// A format request as it arrives.
#[derive(Clone, Debug, PartialEq, Eq)]
pub struct FormatRequest {
    pub code: String,
}

/// A compile response as it leaves.
#[derive(Clone, Debug, PartialEq, Eq)]
pub struct CompileResponse {
    pub success: bool,
    pub code: String,
    pub stdout: String,
    pub stderr: String,
}

/// An execute response as it leaves.
#[derive(Clone, Debug, PartialEq, Eq)]
pub struct ExecuteResponse {
    pub success: bool,
    pub stdout: String,
    pub stderr: String,
}

/// A format response as it leaves.
#[derive(Clone, Debug, PartialEq, Eq)]
pub struct FormatResponse {
    pub success: bool,
    pub code: String,
    pub stdout: String,
    pub stderr: String,
}

/// What is sent when a request fails.
#[derive(Clone, Debug, PartialEq, Eq)]
pub struct ErrorJson {
    pub error: String,
}

impl TryFrom<CompileRequest> for model::CompileRequest {
    type Error = RequestError;

    /// Validates target, channel and mode, in that order; the first name
    /// that is not known is handed back in the error.
    fn try_from(me: CompileRequest) -> (r: Result<model::CompileRequest, RequestError>) {
        let target = match parse_target(me.target.as_str()) {
            Ok(target) => target,
            Err(_) => {
                return Err(RequestError::InvalidTarget(me.target));
            },
        };
        let channel = match parse_channel(me.channel.as_str()) {
            Ok(channel) => channel,
            Err(_) => {
                return Err(RequestError::InvalidChannel(me.channel));
            },
        };
        let mode = match parse_mode(me.mode.as_str()) {
            Ok(mode) => mode,
            Err(_) => {
                return Err(RequestError::InvalidMode(me.mode));
            },
        };
        Ok(model::CompileRequest { target, channel, mode, tests: me.tests, code: me.code })
    }
}

impl TryFromSpecImpl<CompileRequest> for model::CompileRequest {
    open spec fn obeys_try_from_spec() -> bool {
        true
    }

    open spec fn try_from_spec(me: CompileRequest) -> Result<model::CompileRequest, RequestError> {
        if target_named(me.target@) is None {
            Err(RequestError::InvalidTarget(me.target))
        } else if channel_named(me.channel@) is None {
            Err(RequestError::InvalidChannel(me.channel))
        } else if mode_named(me.mode@) is None {
            Err(RequestError::InvalidMode(me.mode))
        } else {
            Ok(
                model::CompileRequest {
                    target: target_named(me.target@)->Some_0,
                    channel: channel_named(me.channel@)->Some_0,
                    mode: mode_named(me.mode@)->Some_0,
                    tests: me.tests,
                    code: me.code,
                },
            )
        }
    }
}

impl TryFrom<ExecuteRequest> for model::ExecuteRequest {
    type Error = RequestError;

    /// Validates channel and mode, in that order; the first name that is
    /// not known is handed back in the error.
    fn try_from(me: ExecuteRequest) -> (r: Result<model::ExecuteRequest, RequestError>) {
        let channel = match parse_channel(me.channel.as_str()) {
            Ok(channel) => channel,
            Err(_) => {
                return Err(RequestError::InvalidChannel(me.channel));
            },
        };
        let mode = match parse_mode(me.mode.as_str()) {
            Ok(mode) => mode,
            Err(_) => {
                return Err(RequestError::InvalidMode(me.mode));
            },
        };
        Ok(model::ExecuteRequest { channel, mode, tests: me.tests, code: me.code })
    }
}

impl TryFromSpecImpl<ExecuteRequest> for model::ExecuteRequest {
    open spec fn obeys_try_from_spec() -> bool {
        true
    }

    open spec fn try_from_spec(me: ExecuteRequest) -> Result<model::ExecuteRequest, RequestError> {
        if channel_named(me.channel@) is None {
            Err(RequestError::InvalidChannel(me.channel))
        } else if mode_named(me.mode@) is None {
            Err(RequestError::InvalidMode(me.mode))
        } else {
            Ok(
                model::ExecuteRequest {
                    channel: channel_named(me.channel@)->Some_0,
                    mode: mode_named(me.mode@)->Some_0,
                    tests: me.tests,
                    code: me.code,
                },
            )
        }
    }
}

impl From<FormatRequest> for model::FormatRequest {
    fn from(me: FormatRequest) -> (r: model::FormatRequest) {
        model::FormatRequest { code: me.code }
    }
}

impl FromSpecImpl<FormatRequest> for model::FormatRequest {
    open spec fn obeys_from_spec() -> bool {
        true
    }

    open spec fn from_spec(me: FormatRequest) -> model::FormatRequest {
        model::FormatRequest { code: me.code }
    }
}

impl From<model::CompileResponse> for CompileResponse {
    fn from(me: model::CompileResponse) -> (r: CompileResponse) {
        CompileResponse { success: me.success, code: me.code, stdout: me.stdout, stderr: me.stderr }
    }
}

impl FromSpecImpl<model::CompileResponse> for CompileResponse {
    open spec fn obeys_from_spec() -> bool {
        true
    }

    open spec fn from_spec(me: model::CompileResponse) -> CompileResponse {
        CompileResponse { success: me.success, code: me.code, stdout: me.stdout, stderr: me.stderr }
    }
}

impl From<model::ExecuteResponse> for ExecuteResponse {
    fn from(me: model::ExecuteResponse) -> (r: ExecuteResponse) {
        ExecuteResponse { success: me.success, stdout: me.stdout, stderr: me.stderr }
    }
}

impl FromSpecImpl<model::ExecuteResponse> for ExecuteResponse {
    open spec fn obeys_from_spec() -> bool {
        true
    }

    open spec fn from_spec(me: model::ExecuteResponse) -> ExecuteResponse {
        ExecuteResponse { success: me.success, stdout: me.stdout, stderr: me.stderr }
    }
}

impl From<model::FormatResponse> for FormatResponse {
    fn from(me: model::FormatResponse) -> (r: FormatResponse) {
        FormatResponse { success: me.success, code: me.code, stdout: me.stdout, stderr: me.stderr }
    }
}

impl FromSpecImpl<model::FormatResponse> for FormatResponse {
    open spec fn obeys_from_spec() -> bool {
        true
    }

    open spec fn from_spec(me: model::FormatResponse) -> FormatResponse {
        FormatResponse { success: me.success, code: me.code, stdout: me.stdout, stderr: me.stderr }
    }
}

} // verus!
