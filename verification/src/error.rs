//! Error taxonomy: fatal I/O and usage errors, the recoverable guess
//! failure, and the broken-pipe condition that callers ignore.

use vstd::prelude::*;

verus! {

/// Declares `std::io::Error` so that errors of the byte source and sink can
/// be carried through the library's own error type.
#[verifier::external_type_specification]
#[verifier::external_body]
pub struct ExIoError(std::io::Error);

/// Declares `std::path::PathBuf` so that errors can name the file they
/// concern.
#[verifier::external_type_specification]
#[verifier::external_body]
pub struct ExPathBuf(std::path::PathBuf);

/// An error of the whole run.
pub enum Error {
    /// Reading or writing a file failed.
    Io { source: std::io::Error, path: std::path::PathBuf, message: String },
    /// The output pipe closed early; callers treat this as success.
    BrokenPipe,
    /// The encoding guess was rejected; the input was copied verbatim.
    Guess(String),
    /// The command line named an unknown destination encoding.
    Usage(String),
}

/// An error of one stream.
pub enum TranscodeError {
    /// Reading the byte source failed.
    Read(std::io::Error),
    /// Writing the byte sink failed.
    Write(std::io::Error),
    /// The encoding guess was rejected; the input was copied verbatim.
    Guess(String),
}

impl Error {
    /// True exactly of the guess-failure variant.
    pub fn is_guess(self: &Self) -> (r: bool)
        ensures
            r == (self is Guess),
    {
        if let Error::Guess(_) = self {
            return true;
        }
        return false;
    }

    /// True exactly of the broken-pipe variant.
    pub fn is_broken_pipe(self: &Self) -> (r: bool)
        ensures
            r == (self is BrokenPipe),
    {
        if let Error::BrokenPipe = self {
            return true;
        }
        return false;
    }
}

} // verus!
