//! What becomes of an attempt to read persistent data.
//!
//! Files are opened and decoded by the caller. This module decides what the
//! outcome means: a file that is not there yet is no error but the ordinary
//! state of a first run, and is told apart from a file that cannot be read
//! or decoded.

use vstd::prelude::*;

verus! {

/// The kinds of I/O failure that loading tells apart.
#[derive(Debug, Clone, Copy, PartialEq, Eq, Structural)]
pub enum IoFailureKind {
    /// The file or directory does not exist.
    NotFound,
    /// Any other failure: permissions, a full disk, a broken device.
    Other,
}

/// A failed I/O operation: its kind and the system's message.
#[derive(Debug, PartialEq, Eq)]
pub struct IoFailure {
    pub kind: IoFailureKind,
    pub message: String,
}

/// An error related to persistent application state.
#[derive(Debug, PartialEq, Eq)]
pub enum PersistenceError {
    /// The file could not be opened, created, read or written.
    IoError(IoFailure),
    /// The file was read but its text could not be decoded; the message
    /// names the place in the text.
    RonSpannedError(String),
    /// The data could not be encoded.
    RonError(String),
}

/// What `load_data` makes of an attempt: `opened` is the outcome of opening
/// the file and, inside it, the outcome of decoding what was read.
pub open spec fn loaded<T>(opened: Result<Result<T, String>, IoFailure>) -> Result<
    Option<T>,
    PersistenceError,
> {
    match opened {
        Ok(Ok(data)) => Ok(Some(data)),
        Ok(Err(message)) => Err(PersistenceError::RonSpannedError(message)),
        Err(failure) => if failure.kind == IoFailureKind::NotFound {
            Ok(None)
        } else {
            Err(PersistenceError::IoError(failure))
        },
    }
}

/// Settle an attempt to load persistent data.
///
/// This returns `Ok(None)` exactly when the file does not exist yet, the
/// decoded data when there is some, and an error for every other failure.
pub fn load_data<T>(opened: Result<Result<T, String>, IoFailure>) -> (data: Result<
    Option<T>,
    PersistenceError,
>)
    ensures
        data == loaded(opened),
{
    match opened {
        Ok(Ok(data)) => Ok(Some(data)),
        Ok(Err(message)) => Err(PersistenceError::RonSpannedError(message)),
        Err(failure) => match failure.kind {
            IoFailureKind::NotFound => Ok(None),
            IoFailureKind::Other => Err(PersistenceError::IoError(failure)),
        },
    }
}

/// A missing file is never an error and never mistaken for data: loading
/// reports "no data" if and only if the file was not found.
pub proof fn lemma_no_data_iff_not_found<T>(opened: Result<Result<T, String>, IoFailure>)
    ensures
        loaded(opened) == Ok::<Option<T>, PersistenceError>(None) <==> (opened is Err
            && opened->Err_0.kind == IoFailureKind::NotFound),
        loaded(opened) is Err <==> (opened matches Ok(Err(_))) || (opened is Err
            && opened->Err_0.kind == IoFailureKind::Other),
{
}

} // verus!
