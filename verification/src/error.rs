//! The error that every step of the recorder reports.

use crate::text::push_text;
use vstd::prelude::*;

verus! {

/// A description of what went wrong, with the text of the underlying cause
/// where there is one.
#[derive(Debug)]
pub struct Error {
    description: String,
    cause: Option<String>,
}

impl Error {
    /// What went wrong.
    pub closed spec fn description_text(&self) -> Seq<char> {
        self.description@
    }

    /// The text of the underlying cause, if any.
    pub closed spec fn cause_text(&self) -> Option<Seq<char>> {
        match self.cause {
            Some(c) => Some(c@),
            None => None,
        }
    }

    /// The full message: the description, followed by the cause where there
    /// is one.
    pub open spec fn message_text(&self) -> Seq<char> {
        match self.cause_text() {
            Some(c) => self.description_text() + ", caused by: "@ + c,
            None => self.description_text(),
        }
    }

    /// An error with the given description and cause.
    pub fn new(description: String, cause: Option<String>) -> (e: Error)
        ensures
            e.description_text() == description@,
            e.cause_text() == (match cause {
                Some(c) => Some(c@),
                None => None,
            }),
    {
        Error { description, cause }
    }

    /// An error without a cause.
    pub fn from_text(description: &str) -> (e: Error)
        ensures
            e.description_text() == description@,
            e.cause_text() is None,
    {
        Error { description: description.to_owned(), cause: None }
    }

    /// An error raised by a collaborator, whose own message is kept as the
    /// cause.
    pub fn from_cause(cause: String) -> (e: Error)
        ensures
            e.description_text() == "An error occurred"@,
            e.cause_text() == Some(cause@),
    {
        Error { description: "An error occurred".to_owned(), cause: Some(cause) }
    }

    /// What went wrong.
    pub fn description(&self) -> (d: &str)
        ensures
            d@ == self.description_text(),
    {
        self.description.as_str()
    }

    /// The text of the underlying cause, if any.
    pub fn cause(&self) -> (c: Option<&str>)
        ensures
            match c {
                Some(t) => self.cause_text() == Some(t@),
                None => self.cause_text() is None,
            },
    {
        match &self.cause {
            Some(err) => Some(err.as_str()),
            None => None,
        }
    }

    /// The full message, as it is shown to the operator.
    pub fn message(&self) -> (m: String)
        ensures
            m@ == self.message_text(),
    {
        let mut m = self.description.clone();
        match &self.cause {
            Some(cause) => {
                push_text(&mut m, ", caused by: ");
                push_text(&mut m, cause.as_str());
            },
            None => {},
        }
        m
    }
}

} // verus!
