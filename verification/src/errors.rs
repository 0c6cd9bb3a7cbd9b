use vstd::prelude::*;
use vstd::std_specs::convert::FromSpecImpl;

verus! {

/// The operating system's I/O error, carried through unread.
#[verifier::external_type_specification]
#[verifier::external_body]
pub struct ExIoError(std::io::Error);

/// The error of a failed integer parse, carried through unread.
#[verifier::external_type_specification]
#[verifier::external_body]
pub struct ExParseIntError(std::num::ParseIntError);

/// The error of a send on a channel whose receiver is gone, carried
/// through unread.
#[verifier::external_type_specification]
#[verifier::external_body]
#[verifier::reject_recursive_types(T)]
pub struct ExSendError<T>(std::sync::mpsc::SendError<T>);

/// Why a watch session could not start, or why it ended.
#[derive(Debug)]
pub enum PatrolError {
    /// The consumer of the events is gone.
    Channel,
    /// The notification source failed, or a watch could not be installed.
    Io(std::io::Error),
    /// A file target's path has no final component.
    NoFilename,
    /// A number could not be parsed.
    NumberFormat(std::num::ParseIntError),
    /// A path cannot be represented, or a file target's path has no parent.
    FilepathEncoding,
    /// Nothing to report.
    Void,
}

impl From<std::io::Error> for PatrolError {
    fn from(error: std::io::Error) -> (converted: PatrolError) {
        PatrolError::Io(error)
    }
}

impl FromSpecImpl<std::io::Error> for PatrolError {
    open spec fn obeys_from_spec() -> bool {
        true
    }

    open spec fn from_spec(error: std::io::Error) -> PatrolError {
        PatrolError::Io(error)
    }
}

impl From<std::num::ParseIntError> for PatrolError {
    fn from(error: std::num::ParseIntError) -> (converted: PatrolError) {
        PatrolError::NumberFormat(error)
    }
}

impl FromSpecImpl<std::num::ParseIntError> for PatrolError {
    open spec fn obeys_from_spec() -> bool {
        true
    }

    open spec fn from_spec(error: std::num::ParseIntError) -> PatrolError {
        PatrolError::NumberFormat(error)
    }
}

impl<T> From<std::sync::mpsc::SendError<T>> for PatrolError {
    fn from(error: std::sync::mpsc::SendError<T>) -> (converted: PatrolError) {
        PatrolError::Channel
    }
}

impl<T> FromSpecImpl<std::sync::mpsc::SendError<T>> for PatrolError {
    open spec fn obeys_from_spec() -> bool {
        true
    }

    open spec fn from_spec(error: std::sync::mpsc::SendError<T>) -> PatrolError {
        PatrolError::Channel
    }
}

} // verus!
