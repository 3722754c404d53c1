//! The ways in which a request to the gateway can fail.

use vstd::prelude::*;

verus! {

/// Why a request could not be answered.
#[derive(Clone, Copy, Debug, PartialEq, Eq, Structural)]
pub enum ErrorKind {
    /// The node could not be reached, refused the credentials or timed out.
    UpstreamUnavailable,
    /// The node answered, but left out a figure that the request needs.
    UpstreamDataMissing,
    /// A request parameter is malformed or names an unsupported choice.
    InvalidArgument,
    /// A request parameter is understood but not honoured yet.
    NotImplemented,
}

impl ErrorKind {
    /// The HTTP status that reports this kind of failure.
    pub open spec fn status_code(self) -> int {
        match self {
            ErrorKind::UpstreamUnavailable => 502,
            ErrorKind::UpstreamDataMissing => 502,
            ErrorKind::InvalidArgument => 400,
            ErrorKind::NotImplemented => 501,
        }
    }

    /// The name under which this kind of failure is reported.
    pub open spec fn label(self) -> Seq<char> {
        match self {
            ErrorKind::UpstreamUnavailable => "UpstreamUnavailable"@,
            ErrorKind::UpstreamDataMissing => "UpstreamDataMissing"@,
            ErrorKind::InvalidArgument => "InvalidArgument"@,
            ErrorKind::NotImplemented => "NotImplemented"@,
        }
    }

    /// The name to report this kind of failure under, in the body of the
    /// answer.
    pub fn name(self) -> (name: &'static str)
        ensures
            name@ == self.label(),
    {
        match self {
            ErrorKind::UpstreamUnavailable => "UpstreamUnavailable",
            ErrorKind::UpstreamDataMissing => "UpstreamDataMissing",
            ErrorKind::InvalidArgument => "InvalidArgument",
            ErrorKind::NotImplemented => "NotImplemented",
        }
    }

    /// The HTTP status to answer with: 400 for a bad argument, 501 for a
    /// parameter that is not honoured yet, 502 where the node is at fault.
    pub fn http_status(self) -> (code: u16)
        ensures
            code == self.status_code(),
    {
        match self {
            ErrorKind::UpstreamUnavailable => 502,
            ErrorKind::UpstreamDataMissing => 502,
            ErrorKind::InvalidArgument => 400,
            ErrorKind::NotImplemented => 501,
        }
    }
}

/// What the node's answer to a query, or its failure to answer, means for
/// the request: a query that the node did not answer is reported as
/// `UpstreamUnavailable`, whatever kept the node from answering.
pub fn require_answer<T>(answer: Option<T>) -> (result: Result<T, ErrorKind>)
    ensures
        result == match answer {
            Some(value) => Ok::<T, ErrorKind>(value),
            None => Err::<T, ErrorKind>(ErrorKind::UpstreamUnavailable),
        },
{
    match answer {
        Some(value) => Ok(value),
        None => Err(ErrorKind::UpstreamUnavailable),
    }
}

} // verus!
