//! What the request layer decides around one sandbox operation: whether a
//! request is there at all, how a failure of each step is reported, and
//! what is sent back.

use crate::error::Error;
use crate::model;
use crate::wire::{
    CompileResponse, ErrorJson, ExecuteResponse, FormatResponse, RequestError, FATAL_ERROR_JSON,
};
use vstd::prelude::*;
use vstd::std_specs::convert::FromSpec;

verus! {

/// The status of a reply.
#[derive(Clone, Copy, Debug, PartialEq, Eq, Structural)]
pub enum Status {
    Success,
    InternalServerError,
}

impl Status {
    pub open spec fn number(self) -> int {
        match self {
            Status::Success => 200,
            Status::InternalServerError => 500,
        }
    }

    /// The status as a number.
    pub fn code(&self) -> (r: u16)
        ensures
            r == self.number(),
    {
        match self {
            Status::Success => 200,
            Status::InternalServerError => 500,
        }
    }
}

/// What is sent back for one request.
#[derive(Clone, Debug, PartialEq, Eq)]
pub struct Reply {
    pub status: Status,
    pub body: String,
}

/// The request that was decoded from a body. A body that could not be
/// decoded gives `Deserialization` with the decoder's text; no body at all
/// gives `RequestMissing`.
pub fn received<R>(parsed: Result<Option<R>, String>) -> (r: Result<R, RequestError>)
    ensures
        match parsed {
            Ok(Some(request)) => r == Ok::<R, RequestError>(request),
            Ok(None) => r == Err::<R, RequestError>(RequestError::RequestMissing),
            Err(text) => r == Err::<R, RequestError>(RequestError::Deserialization(text)),
        },
{
    match parsed {
        Ok(Some(request)) => Ok(request),
        Ok(None) => Err(RequestError::RequestMissing),
        Err(text) => Err(RequestError::Deserialization(text)),
    }
}

/// The outcome of a compile operation as the request layer reports it.
pub fn compiled(result: Result<model::CompileResponse, Error>) -> (r: Result<
    CompileResponse,
    RequestError,
>)
    ensures
        match result {
            Ok(response) => r == Ok::<CompileResponse, RequestError>(
                CompileResponse::from_spec(response),
            ),
            Err(err) => r == Err::<CompileResponse, RequestError>(RequestError::Sandbox(err)),
        },
{
    match result {
        Ok(response) => Ok(CompileResponse::from(response)),
        Err(err) => Err(RequestError::Sandbox(err)),
    }
}

/// The outcome of an execute operation as the request layer reports it.
pub fn executed(result: Result<model::ExecuteResponse, Error>) -> (r: Result<
    ExecuteResponse,
    RequestError,
>)
    ensures
        match result {
            Ok(response) => r == Ok::<ExecuteResponse, RequestError>(
                ExecuteResponse::from_spec(response),
            ),
            Err(err) => r == Err::<ExecuteResponse, RequestError>(RequestError::Sandbox(err)),
        },
{
    match result {
        Ok(response) => Ok(ExecuteResponse::from(response)),
        Err(err) => Err(RequestError::Sandbox(err)),
    }
}

/// The outcome of a format operation as the request layer reports it.
pub fn formatted(result: Result<model::FormatResponse, Error>) -> (r: Result<
    FormatResponse,
    RequestError,
>)
    ensures
        match result {
            Ok(response) => r == Ok::<FormatResponse, RequestError>(
                FormatResponse::from_spec(response),
            ),
            Err(err) => r == Err::<FormatResponse, RequestError>(RequestError::Sandbox(err)),
        },
{
    match result {
        Ok(response) => Ok(FormatResponse::from(response)),
        Err(err) => Err(RequestError::Sandbox(err)),
    }
}

/// The encoded response, or `Serialization` with the encoder's text when
/// it could not be encoded.
pub fn serialized(encoded: Result<String, String>) -> (r: Result<String, RequestError>)
    ensures
        match encoded {
            Ok(body) => r == Ok::<String, RequestError>(body),
            Err(text) => r == Err::<String, RequestError>(RequestError::Serialization(text)),
        },
{
    match encoded {
        Ok(body) => Ok(body),
        Err(text) => Err(RequestError::Serialization(text)),
    }
}

impl ErrorJson {
    /// The value that is sent for a failed request: the error's message.
    pub fn describing(err: &RequestError) -> (r: ErrorJson)
        ensures
            r.error@ == err@.message(),
    {
        ErrorJson { error: err.message() }
    }
}

impl Reply {
    /// The reply to a request that succeeded: status 200 and the encoded
    /// response.
    pub fn success(body: String) -> (r: Reply)
        ensures
            r.status == Status::Success,
            r.body == body,
    {
        Reply { status: Status::Success, body }
    }

    /// The reply to a request that failed: status 500 and the encoded
    /// error, or the fixed text [`FATAL_ERROR_JSON`] where the error could
    /// not be encoded either.
    pub fn failure(encoded: Option<String>) -> (r: Reply)
        ensures
            r.status == Status::InternalServerError,
            match encoded {
                Some(body) => r.body == body,
                None => r.body@ == FATAL_ERROR_JSON@,
            },
    {
        match encoded {
            Some(body) => Reply { status: Status::InternalServerError, body },
            None => Reply { status: Status::InternalServerError, body: FATAL_ERROR_JSON.to_owned() },
        }
    }
}

} // verus!
