//! The closed set of failures a session can meet while reading input.

use vstd::prelude::*;
use vstd::std_specs::convert::FromSpecImpl;

verus! {

/// What the session keeps of a failed operating-system call: the raw error
/// number, where the system gave one, and the message that describes it.
#[derive(Debug)]
pub struct IoFailure {
    pub code: Option<i32>,
    pub message: String,
}

/// The failure kinds used across input handling.
#[derive(Debug)]
pub enum RashError {
    /// An underlying input/output failure, passed through unchanged.
    Io(IoFailure),
    /// End of input: the signal that ends the read loop.
    Eof,
}

impl RashError {
    /// The text this error is shown as.
    pub open spec fn text(&self) -> Seq<char> {
        match *self {
            RashError::Io(failure) => failure.message@,
            RashError::Eof => "EOF"@,
        }
    }

    /// The error as text: the underlying message for `Io`, `EOF` for `Eof`.
    pub fn message(&self) -> (out: String)
        ensures
            out@ == self.text(),
    {
        match self {
            RashError::Io(failure) => failure.message.clone(),
            RashError::Eof => "EOF".to_owned(),
        }
    }

    /// A short description of the error; it reads as `message` does.
    pub fn description(&self) -> (out: String)
        ensures
            out@ == self.text(),
    {
        self.message()
    }
}

impl From<IoFailure> for RashError {
    fn from(err: IoFailure) -> (out: RashError) {
        RashError::Io(err)
    }
}

impl FromSpecImpl<IoFailure> for RashError {
    open spec fn obeys_from_spec() -> bool {
        true
    }

    open spec fn from_spec(err: IoFailure) -> RashError {
        RashError::Io(err)
    }
}

} // verus!
