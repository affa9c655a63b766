//! The errors of the service and how they are reported.
use vstd::prelude::*;

use crate::text::{concat, owned};

verus! {

/// An error of the service.
#[derive(Debug, PartialEq, Eq)]
pub enum CustomError {
    ConstructError(String),
    DestructError(String),
    ParseError(String),
    RequestError(String),
    ResponseError(String),
    Error(String),
    TaskFailed,
    Unknown,
    Test,
}

/// The text that describes an error. `Error` and `Test` describe
/// themselves with nothing: they go to the error log instead.
pub open spec fn error_text(e: CustomError) -> Seq<char> {
    match e {
        CustomError::ConstructError(s) => "Failed to construct: "@ + s@,
        CustomError::DestructError(s) => "Failed to destruct: "@ + s@,
        CustomError::ParseError(s) => "Failed to parse: "@ + s@,
        CustomError::RequestError(s) => "Failed to request: "@ + s@,
        CustomError::ResponseError(s) => "Failed to get response: "@ + s@,
        CustomError::Error(_) => Seq::empty(),
        CustomError::TaskFailed => "Task Failed"@,
        CustomError::Unknown => "Unknown Error"@,
        CustomError::Test => Seq::empty(),
    }
}

/// The line an error writes to the error log, if any.
pub open spec fn logged_text(e: CustomError) -> Option<Seq<char>> {
    match e {
        CustomError::Error(s) => Some("Error: "@ + s@),
        CustomError::Test => Some("Test Error: Test Error!"@),
        _ => None,
    }
}

impl CustomError {
    /// The text that describes the error (its display form).
    pub fn message(&self) -> (r: String)
        ensures
            r@ == error_text(*self),
    {
        match self {
            CustomError::ConstructError(s) => concat("Failed to construct: ", s.as_str()),
            CustomError::DestructError(s) => concat("Failed to destruct: ", s.as_str()),
            CustomError::ParseError(s) => concat("Failed to parse: ", s.as_str()),
            CustomError::RequestError(s) => concat("Failed to request: ", s.as_str()),
            CustomError::ResponseError(s) => concat("Failed to get response: ", s.as_str()),
            CustomError::Error(_) => String::new(),
            CustomError::TaskFailed => owned("Task Failed"),
            CustomError::Unknown => owned("Unknown Error"),
            CustomError::Test => String::new(),
        }
    }

    /// The line that displaying the error writes to the error log, if any.
    pub fn logged(&self) -> (r: Option<String>)
        ensures
            match r {
                Some(s) => logged_text(*self) == Some(s@),
                None => logged_text(*self) is None,
            },
    {
        match self {
            CustomError::Error(s) => Some(concat("Error: ", s.as_str())),
            CustomError::Test => Some(owned("Test Error: Test Error!")),
            _ => None,
        }
    }
}

} // verus!
