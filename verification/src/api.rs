//! The wire side of the service: the error envelope, the reply every compile
//! request resolves to, and the health report.
//!
//! A created reply carries exactly the artifact's bytes; every other reply
//! carries exactly one error envelope — never partial or mixed content. A
//! rejected input answers with a client status, so a caller can tell "fix
//! your input" from "service misconfigured".

use vstd::prelude::*;

use crate::compile::{CompileError, CompileResponse};

verus! {

/// The wire-level error envelope: a human-readable message and an optional
/// machine-readable code.
#[derive(Debug, Clone)]
pub struct ApiError {
    /// Error message.
    pub message: String,
    /// Error code for client handling.
    pub code: Option<ApiErrorCode>,
}

/// The closed set of machine-readable error tags.
#[derive(Debug, Clone)]
pub enum ApiErrorCode {
    CompileError(CompileError),
    CompiledWithtErrors,
    NoBytesGenerated,
}

/// A reply body: the raw artifact bytes, or one error envelope.
#[derive(Debug, Clone)]
pub enum ReplyBody {
    Artifact(Vec<u8>),
    Envelope(ApiError),
}

/// What the service replies to one compile request.
#[derive(Debug, Clone)]
pub struct HttpReply {
    /// The HTTP status the reply is sent with.
    pub status: u16,
    /// The reply's body.
    pub body: ReplyBody,
}

/// The human-readable line a request failure is reported with.
pub open spec fn compile_error_message(e: CompileError) -> Seq<char> {
    match e {
        CompileError::InvalidInput(m) => m@,
        CompileError::CompilationFailed(m) => m@,
        CompileError::Timeout => "Compilation timed out"@,
        CompileError::InternalError(m) => m@,
    }
}

/// Whether a failure blames the request's input, as opposed to the service's
/// own environment.
pub open spec fn blames_input(e: CompileError) -> bool {
    e is InvalidInput
}

/// The failure message, as the envelope carries it.
pub fn compile_error_text(e: &CompileError) -> (s: String)
    ensures
        s@ == compile_error_message(*e),
{
    match e {
        CompileError::InvalidInput(m) => m.clone(),
        CompileError::CompilationFailed(m) => m.clone(),
        CompileError::Timeout => "Compilation timed out".to_owned(),
        CompileError::InternalError(m) => m.clone(),
    }
}

/// Shape the reply one compile request is answered with.
///
/// A successful compilation with output answers created, with exactly the
/// artifact's bytes. A response carrying errors answers with a client status
/// and the fixed envelope. A response with neither errors nor output answers
/// with a server status and the fixed envelope. A failed request answers
/// with a client status when its input was rejected and a server status
/// otherwise, carrying the failure's message and its tag.
pub fn route_compile_result(result: Result<CompileResponse, CompileError>) -> (reply: HttpReply)
    ensures
        (match result {
            Ok(resp) => {
                if resp.errors is Some {
                    reply.body matches ReplyBody::Envelope(err) && reply.status == 400
                        && err.message@ == "Latex compiled with errors"@ && err.code == Some(
                        ApiErrorCode::CompiledWithtErrors,
                    )
                } else if resp.output is Some {
                    reply.body matches ReplyBody::Artifact(bytes) && reply.status == 201 && bytes@
                        == resp.output->0@
                } else {
                    reply.body matches ReplyBody::Envelope(err) && reply.status == 500
                        && err.message@ == "No output generated"@ && err.code == Some(
                        ApiErrorCode::NoBytesGenerated,
                    )
                }
            },
            Err(e) => reply.body matches ReplyBody::Envelope(err) && reply.status == (
            if blames_input(e) {
                400u16
            } else {
                500u16
            }) && err.message@ == compile_error_message(e) && err.code == Some(
                ApiErrorCode::CompileError(e),
            ),
        }),
{
    match result {
        Ok(resp) => {
            if resp.errors.is_some() {
                HttpReply {
                    status: 400,
                    body: ReplyBody::Envelope(
                        ApiError {
                            message: "Latex compiled with errors".to_owned(),
                            code: Some(ApiErrorCode::CompiledWithtErrors),
                        },
                    ),
                }
            } else {
                match resp.output {
                    Some(bytes) => HttpReply { status: 201, body: ReplyBody::Artifact(bytes) },
                    None => HttpReply {
                        status: 500,
                        body: ReplyBody::Envelope(
                            ApiError {
                                message: "No output generated".to_owned(),
                                code: Some(ApiErrorCode::NoBytesGenerated),
                            },
                        ),
                    },
                }
            }
        },
        Err(e) => {
            let status: u16 = match &e {
                CompileError::InvalidInput(m) => 400,
                _ => 500,
            };
            let message = compile_error_text(&e);
            HttpReply {
                status,
                body: ReplyBody::Envelope(
                    ApiError { message, code: Some(ApiErrorCode::CompileError(e)) },
                ),
            }
        },
    }
}

/// The health report: the service is alive at the given clock reading.
#[derive(Debug, Clone)]
pub struct HealthResponse {
    pub status: String,
    pub timestamp: u64,
}

impl HealthResponse {
    /// The reply every health probe gets: the fixed "healthy" status and the
    /// caller's clock reading, in unix seconds. The reading never decreases
    /// across probes exactly as far as the caller's clock never does.
    pub fn new(timestamp: u64) -> (r: HealthResponse)
        ensures
            r.status@ == "healthy"@,
            r.timestamp == timestamp,
    {
        HealthResponse { status: "healthy".to_owned(), timestamp }
    }
}

} // verus!
