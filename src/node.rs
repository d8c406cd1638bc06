//! The shared node record and its lifecycle transitions: reserving a start,
//! recording the spawned process, committing or rolling back after the
//! readiness cycle, stopping, and the teardown on exit.

use vstd::prelude::*;
use vstd::string::*;
use crate::error::{NodeError, ReadinessError};
use crate::readiness::ReadySummary;
use crate::text::{decimal, decimal_spec, join};
use crate::types::{NodeStatus, NodeStatusView, StartNodeResult, StatusReport};

verus! {

/// Port of the control API.
pub const DEFAULT_PORT: u16 = 3000;

pub const STATUS_PATH: &'static str = "/v1/status";
pub const MODELS_PATH: &'static str = "/v1/models";
pub const DOWNLOAD_PATH: &'static str = "/v1/models/download";
pub const ENERGY_PATH: &'static str = "/v1/energy";
pub const COMPLETIONS_PATH: &'static str = "/v1/chat/completions";
pub const SHUTDOWN_PATH: &'static str = "/v1/shutdown";

/// Address of the control API on `port`.
pub open spec fn base_url_spec(port: u16) -> Seq<char> {
    "http://127.0.0.1:"@ + decimal_spec(port as nat)
}

/// Writes the address of the control API on `port`.
pub fn base_url_for(port: u16) -> (r: String)
    ensures
        r@ == base_url_spec(port),
{
    join("http://127.0.0.1:", decimal(port as u64).as_str())
}

/// The node record as its contracts see it.
pub struct NodeView {
    /// A readiness cycle succeeded and no stop has come since.
    pub running: bool,
    pub api_base: Seq<char>,
    pub port: u16,
    /// The owned process handle, by process id.
    pub process: Option<u32>,
    /// A start holds the reservation and has not yet finished.
    pub starting: bool,
    /// Seconds on the caller's monotonic clock at which the node became ready.
    pub started_at: Option<u64>,
}

/// One call that changes the node record.
pub enum Transition {
    BeginStart,
    /// The launch ended: the spawned process's id, or `None` when it failed.
    Launched(Option<u32>),
    /// The readiness cycle for process `pid` ended, successfully or not.
    Finished { pid: u32, ready: bool, now: u64 },
    Stopped,
    TornDown,
}

impl NodeView {
    pub open spec fn wf(self) -> bool {
        &&& self.running ==> self.process.is_some() && self.started_at.is_some() && !self.starting
        &&& !self.running ==> self.started_at.is_none()
    }

    /// A start in progress or a running node holds the reservation.
    pub open spec fn busy(self) -> bool {
        self.running || self.starting || self.process.is_some()
    }

    /// The record after transition `t`.
    pub open spec fn next(self, t: Transition) -> NodeView {
        match t {
            Transition::BeginStart => if self.busy() {
                self
            } else {
                NodeView { starting: true, ..self }
            },
            Transition::Launched(o) => if self.starting && self.process.is_none() {
                match o {
                    Some(pid) => NodeView { process: Some(pid), ..self },
                    None => NodeView { starting: false, ..self },
                }
            } else {
                self
            },
            Transition::Finished { pid, ready, now } => if !self.starting {
                self
            } else if self.process == Some(pid) {
                if ready {
                    NodeView {
                        running: true,
                        api_base: base_url_spec(self.port),
                        started_at: Some(now),
                        starting: false,
                        ..self
                    }
                } else {
                    NodeView { starting: false, process: None, ..self }
                }
            } else {
                NodeView { starting: false, ..self }
            },
            Transition::Stopped => if self.running {
                NodeView { running: false, process: None, started_at: None, ..self }
            } else {
                self
            },
            Transition::TornDown => NodeView {
                running: false,
                process: None,
                started_at: None,
                ..self
            },
        }
    }

    /// The record after a sequence of transitions.
    pub open spec fn run(self, ts: Seq<Transition>) -> NodeView
        decreases ts.len(),
    {
        if ts.len() == 0 {
            self
        } else {
            self.next(ts[0]).run(ts.drop_first())
        }
    }

    /// Seconds since the node became ready, zero when it is not running.
    pub open spec fn uptime(self, now: u64) -> u64 {
        match self.started_at {
            Some(t) => if now >= t { (now - t) as u64 } else { 0 },
            None => 0,
        }
    }
}

/// The record that a fresh supervisor starts with.
pub open spec fn initial_view() -> NodeView {
    NodeView {
        running: false,
        api_base: base_url_spec(DEFAULT_PORT),
        port: DEFAULT_PORT,
        process: None,
        starting: false,
        started_at: None,
    }
}

/// The status reported when the node is not running.
pub open spec fn offline_status(version: Seq<char>) -> NodeStatusView {
    NodeStatusView {
        running: false,
        peer_count: 0,
        uptime_seconds: 0,
        version,
        backend: "none"@,
        model: None,
        llama_cli_available: false,
    }
}

/// Reconciles the record with a live probe: `probe` is the decoded answer of
/// the status endpoint, `None` when it could not be reached.
pub open spec fn status_spec(
    node: NodeView,
    version: Seq<char>,
    probe: Option<StatusReport>,
    now: u64,
) -> NodeStatusView {
    if !node.running {
        offline_status(version)
    } else {
        match probe {
            Some(r) => NodeStatusView {
                running: true,
                peer_count: 0,
                uptime_seconds: node.uptime(now),
                version: match r.version {
                    Some(v) => v@,
                    None => version,
                },
                backend: match r.backend {
                    Some(b) => b@,
                    None => "unknown"@,
                },
                model: None,
                llama_cli_available: match r.llama_cli_available {
                    Some(b) => b,
                    None => false,
                },
            },
            None => NodeStatusView {
                running: true,
                peer_count: 0,
                uptime_seconds: node.uptime(now),
                version,
                backend: "offline"@,
                model: None,
                llama_cli_available: false,
            },
        }
    }
}

/// The error that a failed readiness cycle is reported as.
pub open spec fn readiness_error_spec(e: ReadinessError, port: u16) -> NodeError {
    match e {
        ReadinessError::ProcessExited(s) => NodeError::ExitedEarly(s),
        ReadinessError::CheckFailed(s) => NodeError::StatusCheckFailed(s),
        ReadinessError::Timeout => NodeError::ReadyTimeout(port),
    }
}

/// The single record of the supervised node.
pub struct NodeState {
    running: bool,
    api_base: String,
    api_port: u16,
    process: Option<u32>,
    starting: bool,
    started_at: Option<u64>,
}

impl View for NodeState {
    type V = NodeView;

    closed spec fn view(&self) -> NodeView {
        NodeView {
            running: self.running,
            api_base: self.api_base@,
            port: self.api_port,
            process: self.process,
            starting: self.starting,
            started_at: self.started_at,
        }
    }
}

impl Default for NodeState {
    fn default() -> (r: NodeState)
        ensures
            r@ == initial_view(),
    {
        NodeState::new()
    }
}

impl NodeState {
    #[verifier::type_invariant]
    spec fn inv(&self) -> bool {
        self@.wf()
    }

    /// A supervisor that has not started anything.
    pub fn new() -> (r: NodeState)
        ensures
            r@ == initial_view(),
            r@.wf(),
    {
        NodeState {
            running: false,
            api_base: base_url_for(DEFAULT_PORT),
            api_port: DEFAULT_PORT,
            process: None,
            starting: false,
            started_at: None,
        }
    }

    pub fn is_running(&self) -> (r: bool)
        ensures
            r == self@.running,
    {
        self.running
    }

    pub fn is_starting(&self) -> (r: bool)
        ensures
            r == self@.starting,
    {
        self.starting
    }

    /// Id of the owned process, if any.
    pub fn pid(&self) -> (r: Option<u32>)
        ensures
            r == self@.process,
    {
        self.process
    }

    pub fn port(&self) -> (r: u16)
        ensures
            r == self@.port,
    {
        self.api_port
    }

    pub fn api_base(&self) -> (r: &str)
        ensures
            r@ == self@.api_base,
    {
        self.api_base.as_str()
    }

    pub fn started_at(&self) -> (r: Option<u64>)
        ensures
            r == self@.started_at,
    {
        self.started_at
    }

    /// Reserves the right to launch. Fails, changing nothing, while a node
    /// runs or another start holds the reservation; else returns the port.
    pub fn begin_start(&mut self) -> (r: Result<u16, NodeError>)
        ensures
            final(self)@ == old(self)@.next(Transition::BeginStart),
            old(self)@.busy() ==> r == Result::<u16, NodeError>::Err(NodeError::AlreadyRunning),
            !old(self)@.busy() ==> r == Result::<u16, NodeError>::Ok(old(self)@.port),
    {
        proof {
            use_type_invariant(&*self);
        }
        if self.running || self.starting || self.process.is_some() {
            Err(NodeError::AlreadyRunning)
        } else {
            self.starting = true;
            Ok(self.api_port)
        }
    }

    /// Records the process that the reserved start spawned.
    pub fn launched(&mut self, pid: u32)
        requires
            old(self)@.starting,
            old(self)@.process.is_none(),
        ensures
            final(self)@ == old(self)@.next(Transition::Launched(Some(pid))),
    {
        proof {
            use_type_invariant(&*self);
        }
        self.process = Some(pid);
    }

    /// Releases the reservation of a start whose launch failed, and hands
    /// the error back.
    pub fn launch_failed(&mut self, e: NodeError) -> (r: NodeError)
        requires
            old(self)@.starting,
            old(self)@.process.is_none(),
        ensures
            final(self)@ == old(self)@.next(Transition::Launched(None)),
            r == e,
    {
        proof {
            use_type_invariant(&*self);
        }
        self.starting = false;
        e
    }

    /// Ends the reserved start with the outcome of the readiness cycle for
    /// process `pid`, at time `now`. On success the node is running; on
    /// failure the reservation is released and the id of the process to
    /// kill and reap is returned beside the error.
    pub fn finish_start(
        &mut self,
        pid: u32,
        outcome: Result<ReadySummary, ReadinessError>,
        now: u64,
    ) -> (r: (Result<StartNodeResult, NodeError>, Option<u32>))
        requires
            old(self)@.starting,
        ensures
            final(self)@ == old(self)@.next(
                Transition::Finished { pid, ready: outcome is Ok, now },
            ),
            r.1 == (if old(self)@.process == Some(pid) && outcome is Err {
                Some(pid)
            } else {
                None
            }),
            match outcome {
                Ok(s) => if old(self)@.process == Some(pid) {
                    match r.0 {
                        Ok(v) => v.status@ == "running"@ && v.backend@ == s.backend@
                            && v.port == old(self)@.port && v.pid == pid
                            && v.models_available == s.models_count,
                        Err(_) => false,
                    }
                } else {
                    r.0 == Result::<StartNodeResult, NodeError>::Err(NodeError::StoppedDuringStart)
                },
                Err(e) => r.0 == Result::<StartNodeResult, NodeError>::Err(
                    readiness_error_spec(e, old(self)@.port),
                ),
            },
    {
        proof {
            use_type_invariant(&*self);
        }
        let owned = match self.process {
            Some(p) => p == pid,
            None => false,
        };
        self.starting = false;
        match outcome {
            Ok(s) => {
                if owned {
                    *self = NodeState {
                        running: true,
                        api_base: base_url_for(self.api_port),
                        api_port: self.api_port,
                        process: Some(pid),
                        starting: false,
                        started_at: Some(now),
                    };
                    let result = StartNodeResult {
                        status: String::from_str("running"),
                        backend: s.backend,
                        port: self.api_port,
                        pid,
                        models_available: s.models_count,
                    };
                    (Ok(result), None)
                } else {
                    (Err(NodeError::StoppedDuringStart), None)
                }
            },
            Err(e) => {
                let reap = if owned {
                    self.process = None;
                    Some(pid)
                } else {
                    None
                };
                let err = match e {
                    ReadinessError::ProcessExited(s) => NodeError::ExitedEarly(s),
                    ReadinessError::CheckFailed(s) => NodeError::StatusCheckFailed(s),
                    ReadinessError::Timeout => NodeError::ReadyTimeout(self.api_port),
                };
                (Err(err), reap)
            },
        }
    }

    /// The process that a stop must terminate; fails when the node is not
    /// running, which asks for no process operation at all.
    pub fn stop_target(&self) -> (r: Result<u32, NodeError>)
        ensures
            !self@.running ==> r == Result::<u32, NodeError>::Err(NodeError::NotRunning),
            self@.running ==> r == Result::<u32, NodeError>::Ok(self@.process->Some_0),
    {
        proof {
            use_type_invariant(self);
        }
        if self.running {
            match self.process {
                Some(p) => Ok(p),
                None => Err(NodeError::NotRunning),
            }
        } else {
            Err(NodeError::NotRunning)
        }
    }

    /// Clears the record once a stop has confirmed that the process exited.
    pub fn stopped(&mut self)
        ensures
            final(self)@ == old(self)@.next(Transition::Stopped),
    {
        if self.running {
            *self = NodeState {
                running: false,
                api_base: String::from_str(self.api_base.as_str()),
                api_port: self.api_port,
                process: None,
                starting: self.starting,
                started_at: None,
            };
        }
    }

    /// Clears the record whatever its state, on exit of the supervisor, and
    /// returns the process that must still be killed and reaped.
    pub fn torn_down(&mut self) -> (r: Option<u32>)
        ensures
            final(self)@ == old(self)@.next(Transition::TornDown),
            r == old(self)@.process,
    {
        let r = self.process;
        *self = NodeState {
            running: false,
            api_base: String::from_str(self.api_base.as_str()),
            api_port: self.api_port,
            process: None,
            starting: self.starting,
            started_at: None,
        };
        r
    }

    /// Address of `path` on the control API while the node runs; `None`, so
    /// that no request is made, while it does not.
    pub fn endpoint(&self, path: &str) -> (r: Option<String>)
        ensures
            self@.running ==> r is Some && r->Some_0@ == self@.api_base + path@,
            !self@.running ==> r is None,
    {
        if self.running {
            Some(join(self.api_base.as_str(), path))
        } else {
            None
        }
    }

    /// Address of the download endpoint; the node must be running.
    pub fn download_endpoint(&self) -> (r: Result<String, NodeError>)
        ensures
            self@.running ==> r is Ok && r->Ok_0@ == self@.api_base + DOWNLOAD_PATH@,
            !self@.running ==> r == Result::<String, NodeError>::Err(NodeError::DownloadNeedsNode),
    {
        match self.endpoint(DOWNLOAD_PATH) {
            Some(u) => Ok(u),
            None => Err(NodeError::DownloadNeedsNode),
        }
    }

    /// Address of the completion endpoint; the node must be running.
    pub fn inference_endpoint(&self) -> (r: Result<String, NodeError>)
        ensures
            self@.running ==> r is Ok && r->Ok_0@ == self@.api_base + COMPLETIONS_PATH@,
            !self@.running ==> r == Result::<String, NodeError>::Err(NodeError::InferenceNeedsNode),
    {
        match self.endpoint(COMPLETIONS_PATH) {
            Some(u) => Ok(u),
            None => Err(NodeError::InferenceNeedsNode),
        }
    }

    /// Seconds since the node became ready, zero when it is not running.
    pub fn uptime(&self, now: u64) -> (r: u64)
        ensures
            r == self@.uptime(now),
    {
        match self.started_at {
            Some(t) => if now >= t { now - t } else { 0 },
            None => 0,
        }
    }

    /// The reconciled status. `version` is the supervisor's own version,
    /// `probe` the answer of the status endpoint (asked only while
    /// running, see `endpoint`), `now` the clock.
    pub fn status(&self, version: &str, probe: Option<StatusReport>, now: u64) -> (r: NodeStatus)
        ensures
            r@ == status_spec(self@, version@, probe, now),
    {
        if !self.running {
            return NodeStatus {
                running: false,
                peer_count: 0,
                uptime_seconds: 0,
                version: String::from_str(version),
                backend: String::from_str("none"),
                model: None,
                llama_cli_available: false,
            };
        }
        let uptime = self.uptime(now);
        match probe {
            Some(r) => NodeStatus {
                running: true,
                peer_count: 0,
                uptime_seconds: uptime,
                version: match r.version {
                    Some(v) => v,
                    None => String::from_str(version),
                },
                backend: match r.backend {
                    Some(b) => b,
                    None => String::from_str("unknown"),
                },
                model: None,
                llama_cli_available: match r.llama_cli_available {
                    Some(b) => b,
                    None => false,
                },
            },
            None => NodeStatus {
                running: true,
                peer_count: 0,
                uptime_seconds: uptime,
                version: String::from_str(version),
                backend: String::from_str("offline"),
                model: None,
                llama_cli_available: false,
            },
        }
    }
}

/// Transition `t` ends a run of the node.
pub open spec fn is_stop(t: Transition) -> bool {
    t is Stopped || t is TornDown
}

/// Transition `t` is a readiness cycle that ended in success.
pub open spec fn is_ready(t: Transition) -> bool {
    match t {
        Transition::Finished { ready, .. } => ready,
        _ => false,
    }
}

/// Every transition keeps the record well formed.
pub proof fn lemma_next_keeps_wf(s: NodeView, t: Transition)
    requires
        s.wf(),
    ensures
        s.next(t).wf(),
{
}

proof fn lemma_running_history(s: NodeView, ts: Seq<Transition>)
    ensures
        s.run(ts).running ==> (s.running && forall|j: int| 0 <= j < ts.len() ==> !is_stop(ts[j]))
            || exists|i: int|
            0 <= i < ts.len() && is_ready(#[trigger] ts[i]) && forall|j: int|
                i < j < ts.len() ==> !is_stop(ts[j]),
    decreases ts.len(),
{
    if ts.len() > 0 {
        let s1 = s.next(ts[0]);
        let rest = ts.drop_first();
        lemma_running_history(s1, rest);
        if s.run(ts).running {
            if s1.running && forall|j: int| 0 <= j < rest.len() ==> !is_stop(rest[j]) {
                if is_ready(ts[0]) {
                    assert(forall|j: int| 0 < j < ts.len() ==> ts[j] == rest[j - 1]);
                } else {
                    assert(s.running && !is_stop(ts[0]));
                    assert forall|j: int| 0 <= j < ts.len() implies !is_stop(ts[j]) by {
                        if j > 0 {
                            assert(ts[j] == rest[j - 1]);
                        }
                    }
                }
            } else {
                let i = choose|i: int|
                    0 <= i < rest.len() && is_ready(#[trigger] rest[i]) && forall|j: int|
                        i < j < rest.len() ==> !is_stop(rest[j]);
                assert(ts[i + 1] == rest[i]);
                assert forall|j: int| i + 1 < j < ts.len() implies !is_stop(ts[j]) by {
                    assert(ts[j] == rest[j - 1]);
                }
            }
        }
    }
}

/// Starting from a record that is not running, whatever the sequence of
/// calls, the node is running only if some readiness cycle succeeded and
/// no stop or teardown came after it.
pub proof fn lemma_running_only_after_ready(s: NodeView, ts: Seq<Transition>)
    requires
        !s.running,
    ensures
        s.run(ts).running ==> exists|i: int|
            0 <= i < ts.len() && is_ready(#[trigger] ts[i]) && forall|j: int|
                i < j < ts.len() ==> !is_stop(ts[j]),
{
    lemma_running_history(s, ts);
}

/// A start while the node runs is rejected and changes nothing; the
/// reservation that a first start takes makes a second one fail the same way.
pub proof fn lemma_start_rejected_while_held(s: NodeView)
    ensures
        s.running ==> s.busy() && s.next(Transition::BeginStart) == s,
        !s.busy() ==> s.next(Transition::BeginStart).busy()
            && s.next(Transition::BeginStart).next(Transition::BeginStart)
            == s.next(Transition::BeginStart),
{
}

/// A stop while the node is not running changes nothing.
pub proof fn lemma_stop_while_idle(s: NodeView)
    requires
        !s.running,
    ensures
        s.next(Transition::Stopped) == s,
{
}

/// A start whose readiness cycle fails releases its process, leaves the node
/// not running, and a status query afterwards reports it offline whatever a
/// probe would say.
pub proof fn lemma_failed_start_is_offline(
    s: NodeView,
    pid: u32,
    now: u64,
    version: Seq<char>,
    probe: Option<StatusReport>,
    later: u64,
)
    requires
        s.wf(),
        s.starting,
        s.process == Some(pid),
    ensures
        !s.next(Transition::Finished { pid, ready: false, now }).running,
        s.next(Transition::Finished { pid, ready: false, now }).process.is_none(),
        status_spec(s.next(Transition::Finished { pid, ready: false, now }), version, probe, later)
            == offline_status(version),
{
}

/// Status reconciliation: a node that is not running is reported with the
/// canonical offline record whatever the probe (and `endpoint` asks for no
/// request); a running node whose probe fails is reported running but
/// offline, never as not running.
pub proof fn lemma_status_reconciliation(
    s: NodeView,
    version: Seq<char>,
    probe: Option<StatusReport>,
    now: u64,
)
    ensures
        !s.running ==> status_spec(s, version, probe, now) == offline_status(version),
        s.running ==> status_spec(s, version, None, now).running
            && status_spec(s, version, None, now).backend == "offline"@,
{
}

} // verus!
