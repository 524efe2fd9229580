//! The error taxonomy of the pipeline: one variant per stage that can fail.

use vstd::prelude::*;
use vstd::string::StringExecFns;

verus! {

/// How a transport attempt failed: the three causes are kept distinct so a
/// caller can report them separately.
#[derive(Clone, Copy, Debug, PartialEq, Eq, Structural)]
pub enum TransportFailure {
    /// The connection could not be established or broke down.
    Connect,
    /// The configured timeout expired before the response arrived.
    Timeout,
    /// The server answered with a non-success HTTP status.
    HttpStatus,
}

/// A pipeline stage failure. Every stage failure aborts the remaining
/// pipeline immediately; no stage after the failing one runs.
#[derive(Clone, Copy, Debug, PartialEq, Eq, Structural)]
pub enum PipelineError {
    /// The request target could not be formed.
    InvalidTarget,
    /// The network request failed, timed out, or was answered with an error status.
    Transport(TransportFailure),
    /// The response body was malformed or missed a required field.
    Decode,
    /// The display entity could not be written to local storage.
    Persistence,
    /// The rendering could not be written to standard output.
    Render,
}

/// The report text for each failure, naming the stage that failed.
pub open spec fn spec_describe(e: PipelineError) -> Seq<char> {
    match e {
        PipelineError::InvalidTarget => "invalid request target"@,
        PipelineError::Transport(TransportFailure::Connect) => "could not reach the service"@,
        PipelineError::Transport(TransportFailure::Timeout) => "the request timed out"@,
        PipelineError::Transport(TransportFailure::HttpStatus) => (
        "the service answered with an error status"@),
        PipelineError::Decode => "unexpected response shape"@,
        PipelineError::Persistence => "could not save the entry"@,
        PipelineError::Render => "could not write the rendering"@,
    }
}

impl PipelineError {
    /// A short human-readable report that identifies the failing stage.
    pub fn describe(&self) -> (s: String)
        ensures
            s@ == spec_describe(*self),
    {
        match self {
            PipelineError::InvalidTarget => String::from_str("invalid request target"),
            PipelineError::Transport(TransportFailure::Connect) => String::from_str(
                "could not reach the service",
            ),
            PipelineError::Transport(TransportFailure::Timeout) => String::from_str(
                "the request timed out",
            ),
            PipelineError::Transport(TransportFailure::HttpStatus) => String::from_str(
                "the service answered with an error status",
            ),
            PipelineError::Decode => String::from_str("unexpected response shape"),
            PipelineError::Persistence => String::from_str("could not save the entry"),
            PipelineError::Render => String::from_str("could not write the rendering"),
        }
    }
}

} // verus!
