//! Records exchanged with callers and with the supervised backend.

use vstd::prelude::*;

verus! {

/// Combined view of the node: local knowledge merged with a live probe.
#[derive(Debug, Clone)]
pub struct NodeStatus {
    pub running: bool,
    pub peer_count: u32,
    pub uptime_seconds: u64,
    pub version: String,
    pub backend: String,
    pub model: Option<String>,
    pub llama_cli_available: bool,
}

pub struct NodeStatusView {
    pub running: bool,
    pub peer_count: u32,
    pub uptime_seconds: u64,
    pub version: Seq<char>,
    pub backend: Seq<char>,
    pub model: Option<Seq<char>>,
    pub llama_cli_available: bool,
}

impl View for NodeStatus {
    type V = NodeStatusView;

    open spec fn view(&self) -> NodeStatusView {
        NodeStatusView {
            running: self.running,
            peer_count: self.peer_count,
            uptime_seconds: self.uptime_seconds,
            version: self.version@,
            backend: self.backend@,
            model: opt_text(self.model),
            llama_cli_available: self.llama_cli_available,
        }
    }
}

/// The characters of an optional string.
pub open spec fn opt_text(o: Option<String>) -> Option<Seq<char>> {
    match o {
        Some(s) => Some(s@),
        None => None,
    }
}

/// One entry of the model catalog shown to the caller.
#[derive(Debug, Clone)]
pub struct ModelInfo {
    pub name: String,
    pub params: String,
    pub size: String,
    pub downloaded: bool,
    pub description: String,
}

/// A prompt addressed to one model.
#[derive(Debug, Clone)]
pub struct InferenceRequest {
    pub prompt: String,
    pub model: String,
}

/// What a successful start reports.
#[derive(Debug, Clone)]
pub struct StartNodeResult {
    pub status: String,
    pub backend: String,
    pub port: u16,
    pub pid: u32,
    pub models_available: usize,
}

/// Findings of the environment probe.
#[derive(Debug, Clone)]
pub struct BackendInfo {
    pub python_found: bool,
    pub python_path: String,
    pub python_version: String,
    pub aria_installed: bool,
    pub aria_version: String,
    pub llama_cli_found: bool,
    pub models_found: usize,
}

/// Body of the control API's status endpoint; a field that is absent or of
/// the wrong type is `None`.
#[derive(Debug, Clone)]
pub struct StatusReport {
    pub backend: Option<String>,
    pub version: Option<String>,
    pub models_count: Option<u64>,
    pub llama_cli_available: Option<bool>,
}

/// One element of the model endpoint's `data` array; a field that is absent
/// or of the wrong type is `None`.
#[derive(Debug, Clone)]
pub struct ModelEntry {
    pub id: Option<String>,
    pub ready: Option<bool>,
    pub display_name: Option<String>,
    pub params: Option<String>,
    pub quantization: Option<String>,
}

/// Outcome of running a short diagnostic command to completion.
#[derive(Debug, Clone)]
pub struct CommandOutput {
    pub success: bool,
    pub stdout: String,
    pub stderr: String,
}

} // verus!
