//! The library's error type.

use vstd::prelude::*;

verus! {

/// Errors surfaced by the bridge.
///
/// `WindowsError` wraps the status code of a failing native call and is
/// fatal to the operation in progress.  `JsonError` reports malformed wire
/// text on paths that surface it; message handling itself discards such
/// messages silently.  `CallbackError` carries the message of a failing
/// bound host function and becomes a script-side promise rejection.
/// `TaskCanceled` tells a blocked waiter that the message loop was asked to
/// quit before its operation completed.  `LockError` reports contention or
/// poisoning on the binding registry, and `SendError` a cross-thread handoff
/// whose receiving side is already gone.
#[derive(Debug, PartialEq)]
pub enum Error {
    WindowsError(i32),
    JsonError(String),
    CallbackError(String),
    TaskCanceled,
    LockError,
    SendError,
}

impl Error {
    /// The text a rejection payload carries for this error.
    pub open spec fn spec_text(self) -> Seq<char> {
        match self {
            Error::WindowsError(_) => "windows error"@,
            Error::JsonError(_) => "json error"@,
            Error::CallbackError(s) => s@,
            Error::TaskCanceled => "task canceled"@,
            Error::LockError => "lock error"@,
            Error::SendError => "send error"@,
        }
    }

    /// Renders the error as the string handed to a rejected promise.
    pub fn text(&self) -> (r: String)
        ensures
            r@ == self.spec_text(),
    {
        match self {
            Error::WindowsError(_) => "windows error".to_owned(),
            Error::JsonError(_) => "json error".to_owned(),
            Error::CallbackError(s) => s.clone(),
            Error::TaskCanceled => "task canceled".to_owned(),
            Error::LockError => "lock error".to_owned(),
            Error::SendError => "send error".to_owned(),
        }
    }
}

} // verus!
