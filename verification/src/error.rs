//! Error taxonomy and the response envelope.

use vstd::prelude::*;
use crate::json::Json;

verus! {

/// The error part of a response envelope.
#[derive(Debug)]
pub struct ErrorBody {
    pub code: String,
    pub message: String,
    pub trace_id: String,
}

/// The envelope every reply is wrapped in: either `data` or `error` is set.
#[derive(Debug)]
pub struct ApiEnvelope<T> {
    pub ok: bool,
    pub data: Option<T>,
    pub error: Option<ErrorBody>,
}

impl<T> ApiEnvelope<T> {
    /// The envelope of a successful reply carrying `data`.
    pub fn ok(data: T) -> (env: Self)
        ensures
            env.ok,
            env.data == Some(data),
            env.error is None,
    {
        ApiEnvelope { ok: true, data: Some(data), error: None }
    }
}

/// What can go wrong in the pipeline. The persistence and transport errors
/// carry the message of the failure, the upstream error the HTTP status and
/// a line that names the source.
#[derive(Debug)]
pub enum ApiError {
    Db(String),
    Http(String),
    UpstreamStatus(u16, String),
    Invalid(String),
}

/// The model of an [`ApiError`].
pub enum ApiErrorModel {
    Db(Seq<char>),
    Http(Seq<char>),
    UpstreamStatus(u16, Seq<char>),
    Invalid(Seq<char>),
}

impl View for ApiError {
    type V = ApiErrorModel;

    open spec fn view(&self) -> ApiErrorModel {
        match self {
            ApiError::Db(m) => ApiErrorModel::Db(m@),
            ApiError::Http(m) => ApiErrorModel::Http(m@),
            ApiError::UpstreamStatus(status, m) => ApiErrorModel::UpstreamStatus(*status, m@),
            ApiError::Invalid(m) => ApiErrorModel::Invalid(m@),
        }
    }
}

impl ApiErrorModel {
    /// The stable classification of the error.
    pub open spec fn code(self) -> Seq<char> {
        match self {
            ApiErrorModel::Db(_) => "DB_ERROR"@,
            ApiErrorModel::Http(_) => "HTTP_ERROR"@,
            ApiErrorModel::UpstreamStatus(_, _) => "UPSTREAM_STATUS"@,
            ApiErrorModel::Invalid(_) => "INVALID_INPUT"@,
        }
    }

    /// The message that the error carries.
    pub open spec fn message(self) -> Seq<char> {
        match self {
            ApiErrorModel::Db(m) => m,
            ApiErrorModel::Http(m) => m,
            ApiErrorModel::UpstreamStatus(_, m) => m,
            ApiErrorModel::Invalid(m) => m,
        }
    }

    /// The HTTP status that classifies the error: 400 for invalid input, the
    /// upstream's own status for an upstream failure, 500 otherwise.
    pub open spec fn status(self) -> u16 {
        match self {
            ApiErrorModel::Invalid(_) => 400,
            ApiErrorModel::UpstreamStatus(status, _) => status,
            _ => 500,
        }
    }
}

/// The reply that reports an error: the HTTP status to send and the
/// envelope.
#[derive(Debug)]
pub struct ErrorReply {
    pub status: u16,
    pub body: ApiEnvelope<Json>,
}

/// Calls `uuid::Uuid::new_v4` and the identifier's `to_string`. Claimed of
/// every outcome: the text is the hyphenated form, 36 characters long.
#[verifier::external_body]
fn new_trace_id() -> (text: String)
    ensures
        text@.len() == 36,
{
    uuid::Uuid::new_v4().to_string()
}

impl Clone for ApiError {
    fn clone(&self) -> (copy: Self)
        ensures
            copy@ == self@,
    {
        match self {
            ApiError::Db(m) => ApiError::Db(m.clone()),
            ApiError::Http(m) => ApiError::Http(m.clone()),
            ApiError::UpstreamStatus(status, m) => ApiError::UpstreamStatus(*status, m.clone()),
            ApiError::Invalid(m) => ApiError::Invalid(m.clone()),
        }
    }
}

impl ApiError {
    /// The stable classification of the error.
    pub fn code(&self) -> (code: &'static str)
        ensures
            code@ == self@.code(),
    {
        match self {
            ApiError::Db(_) => "DB_ERROR",
            ApiError::Http(_) => "HTTP_ERROR",
            ApiError::UpstreamStatus(_, _) => "UPSTREAM_STATUS",
            ApiError::Invalid(_) => "INVALID_INPUT",
        }
    }

    /// The message that the error carries.
    pub fn message(&self) -> (message: String)
        ensures
            message@ == self@.message(),
    {
        match self {
            ApiError::Db(m) => m.clone(),
            ApiError::Http(m) => m.clone(),
            ApiError::UpstreamStatus(_, m) => m.clone(),
            ApiError::Invalid(m) => m.clone(),
        }
    }

    /// The HTTP status that classifies the error.
    pub fn status(&self) -> (status: u16)
        ensures
            status == self@.status(),
    {
        match self {
            ApiError::Invalid(_) => 400,
            ApiError::UpstreamStatus(status, _) => *status,
            _ => 500,
        }
    }

    /// The reply that reports the error under the trace identifier
    /// `trace_id`. The envelope names the classification and the message;
    /// the reply itself is always sent with status 200.
    pub fn report(&self, trace_id: String) -> (reply: ErrorReply)
        ensures
            reply.status == 200,
            !reply.body.ok,
            reply.body.data is None,
            reply.body.error matches Some(e) && e.code@ == self@.code() && e.message@
                == self@.message() && e.trace_id == trace_id,
    {
        let body = ApiEnvelope {
            ok: false,
            data: None,
            error: Some(
                ErrorBody { code: self.code().to_owned(), message: self.message(), trace_id },
            ),
        };
        ErrorReply { status: 200, body }
    }

    /// The reply that reports the error under a trace identifier made for
    /// it.
    pub fn into_response(self) -> (reply: ErrorReply)
        ensures
            reply.status == 200,
            !reply.body.ok,
            reply.body.data is None,
            reply.body.error matches Some(e) && e.code@ == self@.code() && e.message@
                == self@.message() && e.trace_id@.len() == 36,
    {
        let trace_id = new_trace_id();
        self.report(trace_id)
    }
}

} // verus!
