//! The error taxonomy: every operation returns either its typed
//! success value or one variant of `SendGridError`.

use vstd::prelude::*;

verus! {

/// The structured error payload the provider returns with a 400
/// response: a human-readable description of the rejection.
#[derive(Debug, PartialEq)]
pub struct SendGridContentError {
    pub description: String,
}

impl Default for SendGridContentError {
    fn default() -> (r: Self)
        ensures
            r.description@.len() == 0,
    {
        SendGridContentError { description: String::new() }
    }
}

/// One failure of a client operation.
#[derive(Debug)]
pub enum SendGridError {
    /// The transport failed before any HTTP response was obtained.
    TransportError { message: String },
    /// An expected body failed to parse into the declared shape; the
    /// raw body is kept for diagnosis.
    DecodeError { raw_body: String },
    /// HTTP 400 with a decoded provider reason, kept together with the
    /// request context it arose from.
    BadRequest { context: String, description: String },
    /// HTTP 401: the credentials were rejected.
    Unauthorized,
    /// HTTP 500: a provider-side failure.
    InternalServerError,
    /// HTTP 503: the provider is temporarily unavailable.
    ServiceUnavailable,
    /// Any status not otherwise enumerated, with the raw body.
    UnexpectedStatus { code: u16, raw_body: String },
}

/// The view of a `SendGridError`.
pub enum SendGridErrorView {
    TransportError { message: Seq<char> },
    DecodeError { raw_body: Seq<char> },
    BadRequest { context: Seq<char>, description: Seq<char> },
    Unauthorized,
    InternalServerError,
    ServiceUnavailable,
    UnexpectedStatus { code: u16, raw_body: Seq<char> },
}

impl View for SendGridError {
    type V = SendGridErrorView;

    open spec fn view(&self) -> SendGridErrorView {
        match self {
            SendGridError::TransportError { message } => SendGridErrorView::TransportError {
                message: message@,
            },
            SendGridError::DecodeError { raw_body } => SendGridErrorView::DecodeError {
                raw_body: raw_body@,
            },
            SendGridError::BadRequest { context, description } => SendGridErrorView::BadRequest {
                context: context@,
                description: description@,
            },
            SendGridError::Unauthorized => SendGridErrorView::Unauthorized,
            SendGridError::InternalServerError => SendGridErrorView::InternalServerError,
            SendGridError::ServiceUnavailable => SendGridErrorView::ServiceUnavailable,
            SendGridError::UnexpectedStatus { code, raw_body } => {
                SendGridErrorView::UnexpectedStatus { code: *code, raw_body: raw_body@ }
            },
        }
    }
}

} // verus!
