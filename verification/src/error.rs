//! Why a node stops.
use vstd::prelude::*;

verus! {

/// What a handler reports when it cannot go on.
#[derive(Debug, Clone, PartialEq, Eq)]
pub struct Failure {
    /// A description for whoever reads the node's last words.
    pub reason: String,
}

/// The ways in which a node fails. Each of them is fatal: the runtime never
/// retries and never resynchronises.
#[derive(Debug, Clone, PartialEq, Eq)]
pub enum RuntimeError {
    /// A line is not valid JSON, or lacks a field that a message must have.
    MalformedInput,
    /// The first message is not an init request, or an init request comes
    /// after the handshake.
    ProtocolViolation,
    /// The handler failed while it was built or while it took a step.
    HandlerError(Failure),
    /// A message could not be written out.
    IoError,
}

impl RuntimeError {
    /// A description of the error, for the process's exit path.
    pub fn describe(&self) -> (text: String)
        ensures
            text@ == match *self {
                RuntimeError::MalformedInput => "malformed input"@,
                RuntimeError::ProtocolViolation => "protocol violation"@,
                RuntimeError::HandlerError(failure) => "handler failed: "@ + failure.reason@,
                RuntimeError::IoError => "output could not be written"@,
            },
    {
        match self {
            RuntimeError::MalformedInput => "malformed input".to_owned(),
            RuntimeError::ProtocolViolation => "protocol violation".to_owned(),
            RuntimeError::HandlerError(failure) => {
                let mut text: String = "handler failed: ".to_owned();
                text.append(failure.reason.as_str());
                text
            },
            RuntimeError::IoError => "output could not be written".to_owned(),
        }
    }
}

} // verus!
