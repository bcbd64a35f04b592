//! The failures that an exchange with the monitoring API can end in.

use vstd::prelude::*;

verus! {

/// How an exchange with the monitoring API failed.
#[derive(Debug, PartialEq, Eq)]
pub enum SensuError {
    /// The service answered 404: what was asked for does not exist.
    NotFound,
    /// Any other failure, with the text that describes it.
    Message(String),
}

/// The mathematical model of a [`SensuError`].
pub enum ErrorView {
    NotFound,
    Message(Seq<char>),
}

impl View for SensuError {
    type V = ErrorView;

    open spec fn view(&self) -> ErrorView {
        match self {
            SensuError::NotFound => ErrorView::NotFound,
            SensuError::Message(m) => ErrorView::Message(m@),
        }
    }
}

impl ErrorView {
    /// The line that reports the failure to the operator.
    pub open spec fn text(self) -> Seq<char> {
        match self {
            ErrorView::NotFound => "404 Not Found"@,
            ErrorView::Message(m) => m,
        }
    }
}

impl SensuError {
    /// A failure described by `msg`.
    pub fn new(msg: &str) -> (e: SensuError)
        ensures
            e@ == ErrorView::Message(msg@),
    {
        SensuError::Message(String::from_str(msg))
    }

    /// A failure described by `msg`.
    pub fn new_string(msg: String) -> (e: SensuError)
        ensures
            e@ == ErrorView::Message(msg@),
    {
        SensuError::Message(msg)
    }

    /// The definitive "does not exist" failure.
    pub fn not_found() -> (e: SensuError)
        ensures
            e@ == ErrorView::NotFound,
    {
        SensuError::NotFound
    }

    /// Whether this is the definitive "does not exist" failure.
    pub fn is_not_found(&self) -> (b: bool)
        ensures
            b == (self@ is NotFound),
    {
        match self {
            SensuError::NotFound => true,
            SensuError::Message(_) => false,
        }
    }

    /// The line that reports the failure to the operator.
    pub fn text(&self) -> (s: String)
        ensures
            s@ == self@.text(),
    {
        match self {
            SensuError::NotFound => String::from_str("404 Not Found"),
            SensuError::Message(m) => m.clone(),
        }
    }
}

} // verus!
