//! Typed application error, and the parts of its HTTP response.
//!
//! Problems of the realtime socket are reported in-band as
//! [`crate::protocol::ServerMsg::Error`] rather than as HTTP errors.

use vstd::prelude::*;

verus! {

/// Why a REST request failed, with the sentence that tells the client.
#[derive(Debug, PartialEq, Eq)]
pub enum AppError {
    NotFound(String),
    BadRequest(String),
    Internal(String),
}

/// The view of an [`AppError`].
#[verifier::ext_equal]
pub enum AppErrorView {
    NotFound(Seq<char>),
    BadRequest(Seq<char>),
    Internal(Seq<char>),
}

impl View for AppError {
    type V = AppErrorView;

    open spec fn view(&self) -> AppErrorView {
        match self {
            AppError::NotFound(m) => AppErrorView::NotFound(m@),
            AppError::BadRequest(m) => AppErrorView::BadRequest(m@),
            AppError::Internal(m) => AppErrorView::Internal(m@),
        }
    }
}

impl AppErrorView {
    /// The HTTP status.
    pub open spec fn status(self) -> u16 {
        match self {
            AppErrorView::NotFound(_) => 404,
            AppErrorView::BadRequest(_) => 400,
            AppErrorView::Internal(_) => 500,
        }
    }

    /// The machine-readable code.
    pub open spec fn code(self) -> Seq<char> {
        match self {
            AppErrorView::NotFound(_) => "not_found"@,
            AppErrorView::BadRequest(_) => "bad_request"@,
            AppErrorView::Internal(_) => "internal"@,
        }
    }

    /// The sentence for the client.
    pub open spec fn message(self) -> Seq<char> {
        match self {
            AppErrorView::NotFound(m) => m,
            AppErrorView::BadRequest(m) => m,
            AppErrorView::Internal(m) => m,
        }
    }
}

impl AppError {
    /// The HTTP status and the machine-readable code.
    pub fn parts(&self) -> (parts: (u16, &'static str))
        ensures
            parts.0 == self@.status(),
            parts.1@ == self@.code(),
    {
        match self {
            AppError::NotFound(_) => (404, "not_found"),
            AppError::BadRequest(_) => (400, "bad_request"),
            AppError::Internal(_) => (500, "internal"),
        }
    }

    /// The sentence for the client.
    pub fn to_string(&self) -> (message: String)
        ensures
            message@ == self@.message(),
    {
        match self {
            AppError::NotFound(m) => m.clone(),
            AppError::BadRequest(m) => m.clone(),
            AppError::Internal(m) => m.clone(),
        }
    }
}

} // verus!
