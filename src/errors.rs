//! The error taxonomy: errors of the clients that reach outside services,
//! errors of the orchestrator, and how each maps to an HTTP status and body.

use vstd::prelude::*;
use vstd::string::*;

verus! {

/// HTTP status codes used by the library.
pub const STATUS_OK: u16 = 200;
pub const STATUS_BAD_REQUEST: u16 = 400;
pub const STATUS_UNAUTHORIZED: u16 = 401;
pub const STATUS_FORBIDDEN: u16 = 403;
pub const STATUS_NOT_FOUND: u16 = 404;
pub const STATUS_REQUEST_TIMEOUT: u16 = 408;
pub const STATUS_UNPROCESSABLE_ENTITY: u16 = 422;
pub const STATUS_INTERNAL_SERVER_ERROR: u16 = 500;
pub const STATUS_NOT_IMPLEMENTED: u16 = 501;
pub const STATUS_SERVICE_UNAVAILABLE: u16 = 503;

/// Body text of every error response that carries no more specific message.
pub const UNEXPECTED_ERROR_MESSAGE: &'static str = "unexpected error occurred while processing request";

/// Status codes of gRPC.
#[derive(Debug, Clone, Copy, PartialEq, Eq, Structural)]
pub enum GrpcCode {
    /// The call succeeded (gRPC `OK`)
    Success,
    Cancelled,
    Unknown,
    InvalidArgument,
    DeadlineExceeded,
    NotFound,
    AlreadyExists,
    PermissionDenied,
    ResourceExhausted,
    FailedPrecondition,
    Aborted,
    OutOfRange,
    Unimplemented,
    Internal,
    Unavailable,
    DataLoss,
    Unauthenticated,
}

/// The HTTP status that stands for a gRPC status.
pub open spec fn grpc_http_status(code: GrpcCode) -> u16 {
    match code {
        GrpcCode::InvalidArgument => STATUS_BAD_REQUEST,
        GrpcCode::Internal => STATUS_INTERNAL_SERVER_ERROR,
        GrpcCode::NotFound => STATUS_NOT_FOUND,
        GrpcCode::DeadlineExceeded => STATUS_REQUEST_TIMEOUT,
        GrpcCode::Unimplemented => STATUS_NOT_IMPLEMENTED,
        GrpcCode::Unauthenticated => STATUS_UNAUTHORIZED,
        GrpcCode::PermissionDenied => STATUS_FORBIDDEN,
        GrpcCode::Unavailable => STATUS_SERVICE_UNAVAILABLE,
        _ => STATUS_INTERNAL_SERVER_ERROR,
    }
}

/// Returns equivalent http status code for grpc status code
pub fn grpc_to_http_code(value: GrpcCode) -> (r: u16)
    ensures
        r == grpc_http_status(value),
{
    match value {
        GrpcCode::InvalidArgument => STATUS_BAD_REQUEST,
        GrpcCode::Internal => STATUS_INTERNAL_SERVER_ERROR,
        GrpcCode::NotFound => STATUS_NOT_FOUND,
        GrpcCode::DeadlineExceeded => STATUS_REQUEST_TIMEOUT,
        GrpcCode::Unimplemented => STATUS_NOT_IMPLEMENTED,
        GrpcCode::Unauthenticated => STATUS_UNAUTHORIZED,
        GrpcCode::PermissionDenied => STATUS_FORBIDDEN,
        GrpcCode::Unavailable => STATUS_SERVICE_UNAVAILABLE,
        _ => STATUS_INTERNAL_SERVER_ERROR,
    }
}

/// Client errors.
#[derive(Debug, Clone)]
pub enum ClientError {
    Grpc { code: u16, message: String },
    Http { code: u16, message: String },
    ModelNotFound { model_id: String },
}

impl ClientError {
    pub open spec fn status(&self) -> u16 {
        match self {
            ClientError::Grpc { code, .. } => *code,
            ClientError::Http { code, .. } => *code,
            ClientError::ModelNotFound { .. } => STATUS_NOT_FOUND,
        }
    }

    /// The error's text.
    pub open spec fn text(&self) -> Seq<char> {
        match self {
            ClientError::Grpc { message, .. } => message@,
            ClientError::Http { message, .. } => message@,
            ClientError::ModelNotFound { model_id } => "model not found: "@ + model_id@,
        }
    }

    /// Returns status code.
    pub fn status_code(&self) -> (r: u16)
        ensures
            r == self.status(),
    {
        match self {
            ClientError::Grpc { code, .. } => *code,
            ClientError::Http { code, .. } => *code,
            ClientError::ModelNotFound { .. } => STATUS_NOT_FOUND,
        }
    }

    /// The error's text.
    pub fn message(&self) -> (r: String)
        ensures
            r@ == self.text(),
    {
        match self {
            ClientError::Grpc { message, .. } => message.clone(),
            ClientError::Http { message, .. } => message.clone(),
            ClientError::ModelNotFound { model_id } => {
                let mut s = String::from_str("model not found: ");
                s.append(model_id.as_str());
                s
            },
        }
    }

    /// The client error of a gRPC status.
    pub fn from_grpc(code: GrpcCode, message: String) -> (r: Self)
        ensures
            r == (ClientError::Grpc { code: grpc_http_status(code), message }),
    {
        ClientError::Grpc { code: grpc_to_http_code(code), message }
    }
}

/// Validation errors of a request.
#[derive(Debug, Clone)]
pub enum ValidationError {
    Required(String),
    Invalid(String),
}

impl ValidationError {
    pub open spec fn text(&self) -> Seq<char> {
        match self {
            ValidationError::Required(name) => "`"@ + name@ + "` is required"@,
            ValidationError::Invalid(message) => message@,
        }
    }

    /// The error's text.
    pub fn message(&self) -> (r: String)
        ensures
            r@ == self.text(),
    {
        match self {
            ValidationError::Required(name) => {
                let mut s = String::from_str("`");
                s.append(name.as_str());
                s.append("` is required");
                s
            },
            ValidationError::Invalid(message) => message.clone(),
        }
    }
}

/// Orchestrator errors.
#[derive(Debug, Clone)]
pub enum Error {
    Client(ClientError),
    DetectorNotFound(String),
    ChunkerNotFound(String),
    DetectorRequestFailed { id: String, error: ClientError },
    ChunkerRequestFailed { id: String, error: ClientError },
    GenerateRequestFailed { id: String, error: ClientError },
    ChatCompletionRequestFailed { id: String, error: ClientError },
    TokenizeRequestFailed { id: String, error: ClientError },
    Validation(String),
    Other(String),
    Cancelled,
    JsonError(String),
    NotImplemented(String),
}

/// The text of the error for detector `id` that an endpoint does not serve.
pub open spec fn unsupported_text(id: Seq<char>) -> Seq<char> {
    "detector `"@ + id + "` is not supported by this endpoint"@
}

/// `` what `id`: error ``: the text of a failed request.
pub open spec fn failed_text(what: Seq<char>, id: Seq<char>, error: ClientError) -> Seq<char> {
    what + " request failed for `"@ + id + "`: "@ + error.text()
}

fn failed_message(what: &str, id: &String, error: &ClientError) -> (r: String)
    ensures
        r@ == failed_text(what@, id@, *error),
{
    let mut s = String::from_str(what);
    s.append(" request failed for `");
    s.append(id.as_str());
    s.append("`: ");
    let m = error.message();
    s.append(m.as_str());
    s
}

impl Error {
    /// The error's text.
    pub open spec fn text(&self) -> Seq<char> {
        match self {
            Error::Client(e) => e.text(),
            Error::DetectorNotFound(id) => "detector `"@ + id@ + "` not found"@,
            Error::ChunkerNotFound(id) => "chunker `"@ + id@ + "` not found"@,
            Error::DetectorRequestFailed { id, error } => failed_text("detector"@, id@, *error),
            Error::ChunkerRequestFailed { id, error } => failed_text("chunker"@, id@, *error),
            Error::GenerateRequestFailed { id, error } => failed_text("generate"@, id@, *error),
            Error::ChatCompletionRequestFailed { id, error } => failed_text(
                "chat completion"@,
                id@,
                *error,
            ),
            Error::TokenizeRequestFailed { id, error } => failed_text("tokenize"@, id@, *error),
            Error::Validation(m) => "validation error: "@ + m@,
            Error::Other(m) => m@,
            Error::Cancelled => "cancelled"@,
            Error::JsonError(m) => "json deserialization error: "@ + m@,
            Error::NotImplemented(m) => "not implemented: "@ + m@,
        }
    }

    /// The error's text.
    pub fn message(&self) -> (r: String)
        ensures
            r@ == self.text(),
    {
        match self {
            Error::Client(e) => e.message(),
            Error::DetectorNotFound(id) => {
                let mut s = String::from_str("detector `");
                s.append(id.as_str());
                s.append("` not found");
                s
            },
            Error::ChunkerNotFound(id) => {
                let mut s = String::from_str("chunker `");
                s.append(id.as_str());
                s.append("` not found");
                s
            },
            Error::DetectorRequestFailed { id, error } => failed_message("detector", id, error),
            Error::ChunkerRequestFailed { id, error } => failed_message("chunker", id, error),
            Error::GenerateRequestFailed { id, error } => failed_message("generate", id, error),
            Error::ChatCompletionRequestFailed { id, error } => failed_message(
                "chat completion",
                id,
                error,
            ),
            Error::TokenizeRequestFailed { id, error } => failed_message("tokenize", id, error),
            Error::Validation(m) => {
                let mut s = String::from_str("validation error: ");
                s.append(m.as_str());
                s
            },
            Error::Other(m) => m.clone(),
            Error::Cancelled => String::from_str("cancelled"),
            Error::JsonError(m) => {
                let mut s = String::from_str("json deserialization error: ");
                s.append(m.as_str());
                s
            },
            Error::NotImplemented(m) => {
                let mut s = String::from_str("not implemented: ");
                s.append(m.as_str());
                s
            },
        }
    }

    /// The validation error for detector `id`, which the endpoint that was
    /// called does not serve.
    pub fn unsupported_detector(id: &String) -> (r: Self)
        ensures
            r is Validation,
            r->Validation_0@ == unsupported_text(id@),
    {
        let mut m = String::from_str("detector `");
        m.append(id.as_str());
        m.append("` is not supported by this endpoint");
        Error::Validation(m)
    }

    /// The orchestrator error of a validation error.
    pub fn from_validation(value: ValidationError) -> (r: Self)
        ensures
            r is Validation,
            r->Validation_0@ == value.text(),
    {
        Error::Validation(value.message())
    }

    /// The orchestrator error of a task that did not finish: `Cancelled`
    /// where it was cancelled, else `Other` with the reason it panicked.
    pub fn from_join(cancelled: bool, reason: String) -> (r: Self)
        ensures
            cancelled ==> r is Cancelled,
            !cancelled ==> r is Other && r->Other_0@ == "task panicked: "@ + reason@,
    {
        if cancelled {
            Error::Cancelled
        } else {
            let mut s = String::from_str("task panicked: ");
            s.append(reason.as_str());
            Error::Other(s)
        }
    }

    /// The HTTP status of the response that reports this error.
    pub open spec fn http_status(&self) -> u16 {
        match self {
            Error::Validation(_) => STATUS_UNPROCESSABLE_ENTITY,
            Error::DetectorNotFound(_) | Error::ChunkerNotFound(_) => STATUS_NOT_FOUND,
            Error::Client(e) => e.status(),
            Error::DetectorRequestFailed { error, .. } | Error::ChunkerRequestFailed { error, .. }
            | Error::GenerateRequestFailed { error, .. } | Error::ChatCompletionRequestFailed {
                error,
                ..
            } | Error::TokenizeRequestFailed { error, .. } => error.status(),
            _ => STATUS_INTERNAL_SERVER_ERROR,
        }
    }

    /// The details of the response that reports this error.
    pub open spec fn http_details(&self) -> Seq<char> {
        match self {
            Error::Validation(m) => m@,
            _ => if self.http_status() == STATUS_INTERNAL_SERVER_ERROR {
                UNEXPECTED_ERROR_MESSAGE@
            } else {
                self.text()
            },
        }
    }
}

/// The status and details of an error response.
#[derive(Debug, Clone)]
pub struct ErrorResponse {
    pub code: u16,
    pub details: String,
}

/// The response that reports `error` to the caller of the orchestrator.
pub fn error_response(error: &Error) -> (r: ErrorResponse)
    ensures
        r.code == error.http_status(),
        r.details@ == error.http_details(),
{
    let code = match error {
        Error::Validation(_) => STATUS_UNPROCESSABLE_ENTITY,
        Error::DetectorNotFound(_) | Error::ChunkerNotFound(_) => STATUS_NOT_FOUND,
        Error::Client(e) => e.status_code(),
        Error::DetectorRequestFailed { error, .. } | Error::ChunkerRequestFailed { error, .. }
        | Error::GenerateRequestFailed { error, .. } | Error::ChatCompletionRequestFailed {
            error,
            ..
        } | Error::TokenizeRequestFailed { error, .. } => error.status_code(),
        _ => STATUS_INTERNAL_SERVER_ERROR,
    };
    let details = match error {
        Error::Validation(m) => m.clone(),
        _ => if code == STATUS_INTERNAL_SERVER_ERROR {
            String::from_str(UNEXPECTED_ERROR_MESSAGE)
        } else {
            error.message()
        },
    };
    ErrorResponse { code, details }
}

} // verus!
