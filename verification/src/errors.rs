use vstd::prelude::*;

verus! {

/// The externally visible failure states.
#[derive(Clone, Copy, Debug, PartialEq, Eq, Structural)]
pub enum Status {
    /// An empty or malformed identifier, or a malformed payload.
    BadRequest,
    /// No document matched the key.
    NotFound,
    /// The store, the file system or the image decoder failed.
    InternalServerError,
}

impl Status {
    /// The HTTP status code.
    pub open spec fn spec_code(self) -> int {
        match self {
            Status::BadRequest => 400,
            Status::NotFound => 404,
            Status::InternalServerError => 500,
        }
    }

    /// The HTTP status code.
    pub fn code(&self) -> (c: u16)
        ensures
            c == self.spec_code(),
    {
        match self {
            Status::BadRequest => 400,
            Status::NotFound => 404,
            Status::InternalServerError => 500,
        }
    }
}

/// A failure as it is surfaced to the client: a status and a message body.
#[derive(Debug, PartialEq, Eq)]
pub struct ApiError {
    pub status: Status,
    pub description: String,
}

pub struct ApiErrorView {
    pub status: Status,
    pub description: Seq<char>,
}

impl View for ApiError {
    type V = ApiErrorView;

    open spec fn view(&self) -> ApiErrorView {
        ApiErrorView { status: self.status, description: self.description@ }
    }
}

/// The failure with the given status and message.
pub open spec fn failure(status: Status, description: Seq<char>) -> ApiErrorView {
    ApiErrorView { status, description }
}

impl ApiError {
    /// A failure with the given status and message.
    pub fn build(status: Status, description: String) -> (e: ApiError)
        ensures
            e@ == (ApiErrorView { status, description: description@ }),
    {
        ApiError { status, description }
    }
}

} // verus!
