//! Supervision core of the ARIA desktop node: the shared node record and its
//! lifecycle transitions, the readiness poller, status reconciliation, the
//! model catalog and the environment probe's interpretation of command output.

pub mod text;
pub mod types;
pub mod error;
pub mod readiness;
pub mod node;
pub mod catalog;
pub mod probe;
pub mod proxy;
