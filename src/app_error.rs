//! The error raised when a name is already taken.

use vstd::prelude::*;

verus! {

/// A descriptive error: the message says what went wrong.
pub struct AppError {
    reason: AppErrorReason,
}

struct AppErrorReason {
    message: String,
}

impl AppErrorReason {
    fn new(message: &str) -> (r: AppErrorReason)
        ensures
            r.message@ == message@,
    {
        AppErrorReason { message: message.to_owned() }
    }
}

impl View for AppError {
    type V = Seq<char>;

    /// The message the error carries.
    closed spec fn view(&self) -> Seq<char> {
        self.reason.message@
    }
}

/// The full text of an error with message `message`.
pub open spec fn error_text(message: Seq<char>) -> Seq<char> {
    "[AppError occurs]: "@ + message
}

impl AppError {
    pub fn new(message: &str) -> (r: AppError)
        ensures
            r@ == message@,
    {
        AppError { reason: AppErrorReason::new(message) }
    }

    /// The message alone.
    pub fn message(&self) -> (r: &str)
        ensures
            r@ == self@,
    {
        self.reason.message.as_str()
    }

    /// The text that names the error and its message.
    pub fn to_string(&self) -> (r: String)
        ensures
            r@ == error_text(self@),
    {
        let mut s = String::new();
        s.append("[AppError occurs]: ");
        s.append(self.reason.message.as_str());
        s
    }
}

/// What an insertion refused: the error, and the item handed back unconsumed.
pub struct Rejected<T> {
    pub error: AppError,
    pub item: T,
}

} // verus!
