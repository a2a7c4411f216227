//! Errors as the interface tells them.

use vstd::prelude::*;

use crate::manager::{OasError, OasErrorView};
use crate::text;

verus! {

/// The kind of an error.
#[derive(Debug, Clone, Copy, PartialEq, Eq, Structural)]
pub enum Code {
    InvalidArgument,
    NotFound,
    AlreadyExists,
    Unimplemented,
    Internal,
    Unavailable,
}

/// An error as the interface tells it.
#[derive(Debug, PartialEq)]
pub struct Status {
    pub code: Code,
    pub message: String,
}

/// The abstract value of [`Status`].
#[verifier::ext_equal]
pub struct StatusView {
    pub code: Code,
    pub message: Seq<char>,
}

impl View for Status {
    type V = StatusView;

    open spec fn view(&self) -> StatusView {
        StatusView { code: self.code, message: self.message@ }
    }
}

impl DeepView for Status {
    type V = StatusView;

    open spec fn deep_view(&self) -> StatusView {
        self@
    }
}

/// The kind that an error of the manager is told as.
pub open spec fn code_of(e: OasErrorView) -> Code {
    match e {
        OasErrorView::NotFound(_) => Code::NotFound,
        OasErrorView::ImageNotInList(_) => Code::NotFound,
        OasErrorView::TypeMismatch(_) => Code::InvalidArgument,
        OasErrorView::InvalidArgument(_) => Code::InvalidArgument,
        OasErrorView::Conflict(_) => Code::AlreadyExists,
        OasErrorView::Unavailable(_) => Code::Unavailable,
        OasErrorView::Internal(_) => Code::Internal,
    }
}

/// An error of the manager as the interface tells it.
pub open spec fn status_of(e: OasErrorView) -> StatusView {
    StatusView { code: code_of(e), message: e.text() }
}

/// An error of the manager as the interface tells it.
pub fn to_status(e: OasError) -> (s: Status)
    ensures
        s@ == status_of(e@),
{
    let code = match &e {
        OasError::NotFound(_) => Code::NotFound,
        OasError::ImageNotInList(_) => Code::NotFound,
        OasError::TypeMismatch(_) => Code::InvalidArgument,
        OasError::InvalidArgument(_) => Code::InvalidArgument,
        OasError::Conflict(_) => Code::AlreadyExists,
        OasError::Unavailable(_) => Code::Unavailable,
        OasError::Internal(_) => Code::Internal,
    };
    Status { code, message: e.message() }
}

/// The answer to a request that takes something away: what is not there is
/// taken away already.
pub fn swallow_not_found(r: Result<(), OasError>) -> (s: Result<(), Status>)
    ensures
        match r {
            Ok(_) => s is Ok,
            Err(e) => if e is NotFound {
                s is Ok
            } else {
                s matches Err(t) && t@ == status_of(e@)
            },
        },
{
    match r {
        Ok(_) => Ok(()),
        Err(OasError::NotFound(_)) => Ok(()),
        Err(e) => Err(to_status(e)),
    }
}

/// The refusal of a request that is malformed.
pub fn invalid_argument(message: &str) -> (s: Status)
    ensures
        s@ == (StatusView { code: Code::InvalidArgument, message: message@ }),
{
    Status { code: Code::InvalidArgument, message: message.to_owned() }
}

/// The refusal of a request that is not served.
pub open spec fn not_served(name: Seq<char>) -> StatusView {
    StatusView {
        code: Code::Unimplemented,
        message: name + " is not supported (oas MVP non-target)"@,
    }
}

/// The refusal of a request that is not served.
pub fn unimpl(name: &str) -> (s: Status)
    ensures
        s@ == not_served(name@),
{
    Status {
        code: Code::Unimplemented,
        message: text::cat2(name, " is not supported (oas MVP non-target)"),
    }
}

} // verus!
