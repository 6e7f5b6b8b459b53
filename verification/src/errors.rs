//! The errors that reading a child's output can bring.
use std::io;
use std::sync::Arc;
use vstd::prelude::*;

verus! {

/// The error of a failed read.
#[verifier::external_type_specification]
#[verifier::external_body]
pub struct ExIoError(std::io::Error);

/// A stream that a child's output arrives on.
#[derive(Clone, Copy, Debug, PartialEq, Eq, Structural)]
pub enum Stream {
    /// Standard output, on a pipe of its own.
    Stdout,
    /// Standard error, on a pipe of its own.
    Stderr,
    /// Standard output and standard error, on one pipe.
    Combined,
}

/// A read of one of the child's streams failed.
#[derive(Debug)]
pub enum ChildFdError {
    /// Reading standard output failed.
    ReadStdout(Arc<io::Error>),
    /// Reading standard error failed.
    ReadStderr(Arc<io::Error>),
    /// Reading the combined stream failed.
    ReadCombined(Arc<io::Error>),
}

/// A [`ChildFdError`] as a pair: the stream, and what reading it brought.
pub struct FdErrorView {
    pub stream: Stream,
    pub error: io::Error,
}

impl View for ChildFdError {
    type V = FdErrorView;

    open spec fn view(&self) -> FdErrorView {
        match self {
            ChildFdError::ReadStdout(error) => FdErrorView {
                stream: Stream::Stdout,
                error: **error,
            },
            ChildFdError::ReadStderr(error) => FdErrorView {
                stream: Stream::Stderr,
                error: **error,
            },
            ChildFdError::ReadCombined(error) => FdErrorView {
                stream: Stream::Combined,
                error: **error,
            },
        }
    }
}

impl Clone for ChildFdError {
    fn clone(&self) -> (copy: Self)
        ensures
            copy == *self,
    {
        match self {
            ChildFdError::ReadStdout(error) => ChildFdError::ReadStdout(Arc::clone(error)),
            ChildFdError::ReadStderr(error) => ChildFdError::ReadStderr(Arc::clone(error)),
            ChildFdError::ReadCombined(error) => ChildFdError::ReadCombined(Arc::clone(error)),
        }
    }
}

impl ChildFdError {
    /// Wraps the error that a read of `stream` brought.
    pub fn new(stream: Stream, error: io::Error) -> (wrapped: Self)
        ensures
            wrapped@ == (FdErrorView { stream, error }),
            wrapped == match stream {
                Stream::Stdout => ChildFdError::ReadStdout(Arc::new(error)),
                Stream::Stderr => ChildFdError::ReadStderr(Arc::new(error)),
                Stream::Combined => ChildFdError::ReadCombined(Arc::new(error)),
            },
    {
        let error = Arc::new(error);
        match stream {
            Stream::Stdout => ChildFdError::ReadStdout(error),
            Stream::Stderr => ChildFdError::ReadStderr(error),
            Stream::Combined => ChildFdError::ReadCombined(error),
        }
    }
}

/// Errors that go under one description.
#[derive(Debug)]
pub struct ErrorList {
    /// What was being done when the errors came.
    pub description: &'static str,
    /// The errors, in the order in which they came.
    pub errors: Vec<ChildFdError>,
}

impl ErrorList {
    /// Puts `errors` under `description`.
    pub fn new(description: &'static str, errors: Vec<ChildFdError>) -> (list: Self)
        ensures
            list.description == description,
            list.errors == errors,
    {
        ErrorList { description, errors }
    }
}

} // verus!
