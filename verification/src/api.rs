//! What the backend's endpoints answer: the service errors and the plain
//! replies (an HTTP status and a small JSON body) of the handlers.
use vstd::prelude::*;

verus! {

/// An error of the backend services, with the HTTP status it is answered with.
#[derive(Debug)]
pub enum ApiError {
    /// The request is invalid (400).
    Validation(String),
    /// Stellar or Soroban refused or failed (502).
    Stellar(String),
    /// The resource does not exist (404).
    NotFound(String),
    /// Compliance screening refused the request (403).
    Compliance(String),
    /// Anything else (500).
    InternalServerError,
}

impl ApiError {
    /// The HTTP status of the error.
    pub open spec fn spec_status(&self) -> u16 {
        match self {
            ApiError::Validation(_) => 400,
            ApiError::Stellar(_) => 502,
            ApiError::NotFound(_) => 404,
            ApiError::Compliance(_) => 403,
            ApiError::InternalServerError => 500,
        }
    }

    /// The HTTP status of the error.
    pub fn status(&self) -> (r: u16)
        ensures
            r == self.spec_status(),
    {
        match self {
            ApiError::Validation(_) => 400,
            ApiError::Stellar(_) => 502,
            ApiError::NotFound(_) => 404,
            ApiError::Compliance(_) => 403,
            ApiError::InternalServerError => 500,
        }
    }

    /// The message of the error.
    pub fn message(&self) -> (r: &str)
        ensures
            match self {
                ApiError::Validation(m) => r@ == m@,
                ApiError::Stellar(m) => r@ == m@,
                ApiError::NotFound(m) => r@ == m@,
                ApiError::Compliance(m) => r@ == m@,
                ApiError::InternalServerError => r@ == "Internal server error"@,
            },
    {
        match self {
            ApiError::Validation(m) => m.as_str(),
            ApiError::Stellar(m) => m.as_str(),
            ApiError::NotFound(m) => m.as_str(),
            ApiError::Compliance(m) => m.as_str(),
            ApiError::InternalServerError => "Internal server error",
        }
    }
}

/// The JSON body of a reply.
#[derive(Debug)]
pub enum ReplyBody {
    /// `{"error": message}`.
    Error(String),
    /// `{"status": status}`.
    Status(String),
    /// `{"success": true}`.
    Success,
}

/// A handler's reply: an HTTP status and its body.
#[derive(Debug)]
pub struct ApiReply {
    pub status: u16,
    pub body: ReplyBody,
}

/// The body text of a reply.
pub open spec fn reply_text(r: ApiReply) -> Seq<char> {
    match r.body {
        ReplyBody::Error(m) => m@,
        ReplyBody::Status(s) => s@,
        ReplyBody::Success => Seq::empty(),
    }
}

/// Whether a reply is an error reply with this status and message.
pub open spec fn is_error_reply(r: ApiReply, status: u16, message: Seq<char>) -> bool {
    r.status == status && r.body is Error && reply_text(r) == message
}

/// Whether a reply is a status reply with this HTTP status and text.
pub open spec fn is_status_reply(r: ApiReply, status: u16, text: Seq<char>) -> bool {
    r.status == status && r.body is Status && reply_text(r) == text
}

/// An error reply.
pub fn error_reply(status: u16, message: &str) -> (r: ApiReply)
    ensures
        is_error_reply(r, status, message@),
{
    ApiReply { status, body: ReplyBody::Error(String::from_str(message)) }
}

/// A status reply.
pub fn status_reply(status: u16, text: &str) -> (r: ApiReply)
    ensures
        is_status_reply(r, status, text@),
{
    ApiReply { status, body: ReplyBody::Status(String::from_str(text)) }
}

} // verus!
