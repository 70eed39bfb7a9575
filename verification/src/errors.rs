//! The three kinds of failure that every store operation can report.

use vstd::prelude::*;
use vstd::string::*;

verus! {

/// A failure of a ledger operation, with a message for the caller.
#[derive(Debug, PartialEq, Eq)]
pub enum AppError {
    /// The caller's input was malformed or incomplete.
    BadRequest(String),
    /// No transaction has the identifier that was asked for.
    NotFound(String),
    /// The backend failed; the message is the backend's own.
    SystemError(String),
}

/// `e` is a bad-request error whose message is `text`.
pub open spec fn bad_request(e: AppError, text: Seq<char>) -> bool {
    e matches AppError::BadRequest(m) && m@ == text
}

/// `e` is a system error whose message is `text`.
pub open spec fn system_error(e: AppError, text: Seq<char>) -> bool {
    e matches AppError::SystemError(m) && m@ == text
}

impl AppError {
    /// The message that the error carries.
    pub open spec fn message(self) -> Seq<char> {
        match self {
            AppError::BadRequest(m) => m@,
            AppError::NotFound(m) => m@,
            AppError::SystemError(m) => m@,
        }
    }

    /// The HTTP status that stands for each kind.
    pub open spec fn status_of(self) -> u16 {
        match self {
            AppError::BadRequest(_) => 400,
            AppError::NotFound(_) => 404,
            AppError::SystemError(_) => 500,
        }
    }

    /// The error as one line of text: the kind, a colon, the message.
    pub open spec fn rendered(self) -> Seq<char> {
        match self {
            AppError::BadRequest(m) => "BadRequest: "@ + m@,
            AppError::NotFound(m) => "NotFound: "@ + m@,
            AppError::SystemError(m) => "SystemError: "@ + m@,
        }
    }

    /// Renders the error as text.
    pub fn describe(&self) -> (text: String)
        ensures
            text@ == self.rendered(),
    {
        match self {
            AppError::BadRequest(m) => String::from_str("BadRequest: ").concat(m.as_str()),
            AppError::NotFound(m) => String::from_str("NotFound: ").concat(m.as_str()),
            AppError::SystemError(m) => String::from_str("SystemError: ").concat(m.as_str()),
        }
    }

    /// The HTTP status code under which the error is reported.
    pub fn status(&self) -> (code: u16)
        ensures
            code == self.status_of(),
    {
        match self {
            AppError::BadRequest(_) => 400,
            AppError::NotFound(_) => 404,
            AppError::SystemError(_) => 500,
        }
    }

    /// The body of the response that reports the error: its message.
    pub fn into_message(self) -> (text: String)
        ensures
            text@ == self.message(),
    {
        match self {
            AppError::BadRequest(m) => m,
            AppError::NotFound(m) => m,
            AppError::SystemError(m) => m,
        }
    }

    /// A failure of the storage engine, kept with the engine's own words.
    pub fn from_engine(message: String) -> (e: AppError)
        ensures
            e == AppError::SystemError(message),
    {
        AppError::SystemError(message)
    }
}

} // verus!
