//! The error type shared by every fallible operation of the crate.

use vstd::prelude::*;

verus! {

/// What went wrong in an operation.
///
/// Each variant carries a message for the operator.
#[derive(Debug)]
pub enum Error {
    /// The transport could not open, write or read (a timeout included).
    Io(String),
    /// A payload has the wrong length, or a frame that needs a serial number
    /// was asked of a packet that has none.
    InvalidFormat(String),
    /// The device answered, but not with what the protocol allows: its
    /// status was not OK, or the serial number of the reply was not the one
    /// that was sent.
    Smdp(String),
}

/// Result of a fallible operation of this crate.
pub type CResult<T> = Result<T, Error>;

/// Mathematical value of an [`Error`]: its kind and the text of its message.
pub enum ErrorView {
    Io(Seq<char>),
    InvalidFormat(Seq<char>),
    Smdp(Seq<char>),
}

impl ErrorView {
    /// The message, whatever the kind.
    pub open spec fn message(self) -> Seq<char> {
        match self {
            ErrorView::Io(m) => m,
            ErrorView::InvalidFormat(m) => m,
            ErrorView::Smdp(m) => m,
        }
    }
}

impl View for Error {
    type V = ErrorView;

    open spec fn view(&self) -> ErrorView {
        match self {
            Error::Io(m) => ErrorView::Io(m@),
            Error::InvalidFormat(m) => ErrorView::InvalidFormat(m@),
            Error::Smdp(m) => ErrorView::Smdp(m@),
        }
    }
}

/// Mathematical value of a result of this crate: the error by its view.
pub open spec fn result_view<T>(r: CResult<T>) -> Result<T, ErrorView> {
    match r {
        Ok(v) => Ok(v),
        Err(e) => Err(e@),
    }
}

impl Error {
    /// The text that the error shows to the operator.
    pub fn message(&self) -> (text: String)
        ensures
            text@ == self@.message(),
    {
        match self {
            Error::Io(m) => m.clone(),
            Error::InvalidFormat(m) => m.clone(),
            Error::Smdp(m) => m.clone(),
        }
    }

    /// Turns a failure reported by the transport into the error that the
    /// caller sees. Whatever the transport could not do (open, write, read in
    /// time, make out a frame), the caller is told of an I/O error with the
    /// transport's own words.
    pub fn propagate_smdp_io(reason: String) -> (e: Error)
        ensures
            e@ == ErrorView::Io(reason@),
    {
        Error::Io(reason)
    }
}

} // verus!
