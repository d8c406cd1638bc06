//! Errors of the lifecycle operations and the messages shown to callers.

use vstd::prelude::*;
use vstd::string::*;
use crate::text::{decimal, decimal_spec, join};

verus! {

/// Why the readiness poller gave up.
#[derive(Debug, Clone)]
pub enum ReadinessError {
    /// The process exited while being polled; holds its exit status.
    ProcessExited(String),
    /// Querying the process's exit status failed.
    CheckFailed(String),
    /// The health endpoint never answered within the attempt budget.
    Timeout,
}

/// A failed lifecycle or proxy operation.
#[derive(Debug, Clone)]
pub enum NodeError {
    AlreadyRunning,
    NotRunning,
    InterpreterMissing,
    BackendMissing,
    SpawnFailed(String),
    ExitedEarly(String),
    StatusCheckFailed(String),
    ReadyTimeout(u16),
    StoppedDuringStart,
    DownloadNeedsNode,
    InferenceNeedsNode,
}

/// The text that a caller is shown for `e`.
pub open spec fn message_spec(e: NodeError) -> Seq<char> {
    match e {
        NodeError::AlreadyRunning => "Node is already running"@,
        NodeError::NotRunning => "Node is not running"@,
        NodeError::InterpreterMissing =>
            "Python 3 not found in PATH. Install Python 3.10+ and ensure it is in your system PATH."@,
        NodeError::BackendMissing =>
            "ARIA package not found. Run: pip install -e \".[dev]\" from the aria-protocol directory."@,
        NodeError::SpawnFailed(s) => "Failed to start ARIA backend: "@ + s@,
        NodeError::ExitedEarly(s) => "Python API server exited prematurely with status: "@ + s@,
        NodeError::StatusCheckFailed(s) => "Failed to check process status: "@ + s@,
        NodeError::ReadyTimeout(port) =>
            "ARIA API server failed to start within 30 seconds. Check that port "@
                + decimal_spec(port as nat) + " is available."@,
        NodeError::StoppedDuringStart => "Node was stopped before it became ready"@,
        NodeError::DownloadNeedsNode => "Backend is not running. Start the node first."@,
        NodeError::InferenceNeedsNode =>
            "Backend is not running. Start the node first to send inference requests."@,
    }
}

impl NodeError {
    /// The text shown to the caller.
    pub fn message(&self) -> (r: String)
        ensures
            r@ == message_spec(*self),
    {
        match self {
            NodeError::AlreadyRunning => String::from_str("Node is already running"),
            NodeError::NotRunning => String::from_str("Node is not running"),
            NodeError::InterpreterMissing => String::from_str(
                "Python 3 not found in PATH. Install Python 3.10+ and ensure it is in your system PATH.",
            ),
            NodeError::BackendMissing => String::from_str(
                "ARIA package not found. Run: pip install -e \".[dev]\" from the aria-protocol directory.",
            ),
            NodeError::SpawnFailed(s) => join("Failed to start ARIA backend: ", s.as_str()),
            NodeError::ExitedEarly(s) => join(
                "Python API server exited prematurely with status: ",
                s.as_str(),
            ),
            NodeError::StatusCheckFailed(s) => join("Failed to check process status: ", s.as_str()),
            NodeError::ReadyTimeout(port) => {
                let head = join(
                    "ARIA API server failed to start within 30 seconds. Check that port ",
                    decimal(*port as u64).as_str(),
                );
                head.concat(" is available.")
            },
            NodeError::StoppedDuringStart => String::from_str(
                "Node was stopped before it became ready",
            ),
            NodeError::DownloadNeedsNode => String::from_str(
                "Backend is not running. Start the node first.",
            ),
            NodeError::InferenceNeedsNode => String::from_str(
                "Backend is not running. Start the node first to send inference requests.",
            ),
        }
    }
}

} // verus!
