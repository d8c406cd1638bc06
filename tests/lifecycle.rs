use aria_desktop::error::{NodeError, ReadinessError};
use aria_desktop::node::{base_url_for, NodeState, DOWNLOAD_PATH, STATUS_PATH};
use aria_desktop::readiness::{
    ready_summary, Liveness, PollEvent, PollStep, ReadinessPoller, ReadySummary, MAX_ATTEMPTS,
};
use aria_desktop::types::StatusReport;

fn report(backend: &str, models: u64) -> StatusReport {
    StatusReport {
        backend: Some(backend.to_string()),
        version: Some("0.9.1".to_string()),
        models_count: Some(models),
        llama_cli_available: Some(true),
    }
}

/// Drives a poller against a backend whose health probe answers on probe
/// number `answer_on` (never when `None`), while the process stays alive.
fn poll(answer_on: Option<u32>, rep: &StatusReport) -> (Result<ReadySummary, ReadinessError>, u32) {
    let mut p = ReadinessPoller::new();
    let mut probes: u32 = 0;
    loop {
        match p.next_step() {
            PollStep::CheckLiveness => {
                assert!(p.observe(PollEvent::Liveness(Liveness::Alive)).is_none());
            }
            PollStep::ProbeHealth => {
                probes += 1;
                let ev = if Some(probes) == answer_on {
                    PollEvent::Health(Some(rep.clone()))
                } else {
                    PollEvent::Health(None)
                };
                if let Some(out) = p.observe(ev) {
                    return (out, probes);
                }
            }
            PollStep::Done => panic!("poller ended without an outcome"),
        }
    }
}

#[test]
fn round_trip_start_status_stop() {
    let mut node = NodeState::new();
    assert_eq!(node.status("1.0.0", None, 5).backend, "none");
    let port = node.begin_start().unwrap();
    assert_eq!(port, 3000);
    node.launched(4242);
    let (outcome, probes) = poll(Some(3), &report("bitnet-cpu", 2));
    assert_eq!(probes, 3);
    let (res, reap) = node.finish_start(4242, outcome, 100);
    assert!(reap.is_none());
    let started = res.unwrap();
    assert_eq!(started.status, "running");
    assert_eq!(started.backend, "bitnet-cpu");
    assert_eq!(started.port, 3000);
    assert_eq!(started.pid, 4242);
    assert_eq!(started.models_available, 2);
    assert!(node.is_running());
    assert_eq!(node.api_base(), "http://127.0.0.1:3000");

    let st = node.status("1.0.0", Some(report("bitnet-cpu", 2)), 130);
    assert!(st.running);
    assert_eq!(st.backend, "bitnet-cpu");
    assert_eq!(st.version, "0.9.1");
    assert_eq!(st.uptime_seconds, 30);
    assert!(st.llama_cli_available);

    assert_eq!(node.stop_target().unwrap(), 4242);
    node.stopped();
    let st = node.status("1.0.0", Some(report("bitnet-cpu", 2)), 200);
    assert!(!st.running);
    assert_eq!(st.uptime_seconds, 0);
    assert_eq!(st.backend, "none");
    assert_eq!(st.version, "1.0.0");
    assert!(st.model.is_none());
    assert!(node.pid().is_none());
}

#[test]
fn second_start_is_rejected() {
    let mut node = NodeState::new();
    let first = node.begin_start();
    let second = node.begin_start();
    assert_eq!(first.unwrap(), 3000);
    let err = second.unwrap_err();
    assert!(matches!(err, NodeError::AlreadyRunning));
    assert_eq!(err.message(), "Node is already running");
    assert!(node.is_starting());
    assert!(node.pid().is_none());
}

#[test]
fn start_while_running_is_rejected() {
    let mut node = NodeState::new();
    node.begin_start().unwrap();
    node.launched(7);
    let (res, _) = node.finish_start(7, Ok(ready_summary(&report("x", 0))), 1);
    assert!(res.is_ok());
    assert!(matches!(node.begin_start(), Err(NodeError::AlreadyRunning)));
    assert_eq!(node.pid(), Some(7));
    assert!(node.is_running());
}

#[test]
fn stop_while_not_running_fails() {
    let mut node = NodeState::new();
    let err = node.stop_target().unwrap_err();
    assert!(matches!(err, NodeError::NotRunning));
    assert_eq!(err.message(), "Node is not running");
    node.stopped();
    assert!(!node.is_running());
    assert!(node.pid().is_none());
}

#[test]
fn stop_twice_reports_not_running() {
    let mut node = NodeState::new();
    node.begin_start().unwrap();
    node.launched(11);
    node.finish_start(11, Ok(ready_summary(&report("x", 0))), 1).0.unwrap();
    assert_eq!(node.stop_target().unwrap(), 11);
    node.stopped();
    assert!(matches!(node.stop_target(), Err(NodeError::NotRunning)));
}

#[test]
fn exit_during_polling_ends_without_probe() {
    let mut p = ReadinessPoller::new();
    assert_eq!(p.next_step(), PollStep::CheckLiveness);
    assert!(p.observe(PollEvent::Liveness(Liveness::Alive)).is_none());
    assert_eq!(p.next_step(), PollStep::ProbeHealth);
    assert!(p.observe(PollEvent::Health(None)).is_none());
    let out = p.observe(PollEvent::Liveness(Liveness::Exited("exit status: 1".to_string())));
    match out {
        Some(Err(ReadinessError::ProcessExited(s))) => assert_eq!(s, "exit status: 1"),
        _ => panic!("expected a process exit"),
    }
    assert_eq!(p.next_step(), PollStep::Done);
    assert!(p.observe(PollEvent::Health(Some(report("x", 1)))).is_none());
    assert_eq!(p.next_step(), PollStep::Done);
}

#[test]
fn exited_process_fails_start() {
    let mut node = NodeState::new();
    node.begin_start().unwrap();
    node.launched(9);
    let (res, reap) = node.finish_start(
        9,
        Err(ReadinessError::ProcessExited("exit status: 2".to_string())),
        3,
    );
    let err = res.unwrap_err();
    assert_eq!(err.message(), "Python API server exited prematurely with status: exit status: 2");
    assert_eq!(reap, Some(9));
    assert!(!node.is_running());
    assert!(!node.is_starting());
}

#[test]
fn silent_backend_times_out_and_is_killed() {
    let (outcome, probes) = poll(None, &report("x", 0));
    assert_eq!(probes, MAX_ATTEMPTS);
    assert!(matches!(outcome, Err(ReadinessError::Timeout)));
    let mut node = NodeState::new();
    node.begin_start().unwrap();
    node.launched(31);
    let (res, reap) = node.finish_start(31, outcome, 40);
    assert_eq!(reap, Some(31));
    let err = res.unwrap_err();
    assert!(matches!(err, NodeError::ReadyTimeout(3000)));
    assert_eq!(
        err.message(),
        "ARIA API server failed to start within 30 seconds. Check that port 3000 is available."
    );
    let st = node.status("1.0.0", Some(report("x", 0)), 50);
    assert!(!st.running);
    assert_eq!(st.backend, "none");
    assert!(node.pid().is_none());
    assert!(node.begin_start().is_ok());
}

#[test]
fn status_probe_only_while_running() {
    let node = NodeState::new();
    assert!(node.endpoint(STATUS_PATH).is_none());
    let st = node.status("2.0.0", Some(report("bitnet", 1)), 10);
    assert!(!st.running);
    assert_eq!(st.peer_count, 0);
    assert_eq!(st.uptime_seconds, 0);
    assert_eq!(st.version, "2.0.0");
    assert_eq!(st.backend, "none");
    assert!(!st.llama_cli_available);
}

#[test]
fn unreachable_probe_reports_running_offline() {
    let mut node = NodeState::new();
    node.begin_start().unwrap();
    node.launched(5);
    node.finish_start(5, Ok(ready_summary(&report("bitnet", 1))), 10).0.unwrap();
    assert_eq!(node.endpoint(STATUS_PATH).unwrap(), "http://127.0.0.1:3000/v1/status");
    let st = node.status("2.0.0", None, 25);
    assert!(st.running);
    assert_eq!(st.backend, "offline");
    assert_eq!(st.version, "2.0.0");
    assert_eq!(st.uptime_seconds, 15);
    assert!(!st.llama_cli_available);
}

#[test]
fn probe_with_missing_fields_uses_defaults() {
    let mut node = NodeState::new();
    node.begin_start().unwrap();
    node.launched(5);
    node.finish_start(5, Ok(ready_summary(&report("bitnet", 1))), 10).0.unwrap();
    let empty = StatusReport { backend: None, version: None, models_count: None, llama_cli_available: None };
    let st = node.status("2.0.0", Some(empty.clone()), 10);
    assert!(st.running);
    assert_eq!(st.backend, "unknown");
    assert_eq!(st.version, "2.0.0");
    let s = ready_summary(&empty);
    assert_eq!(s.backend, "simulation");
    assert_eq!(s.models_count, 0);
}

#[test]
fn failed_launch_releases_reservation() {
    let mut node = NodeState::new();
    node.begin_start().unwrap();
    let err = node.launch_failed(NodeError::SpawnFailed("No such file".to_string()));
    assert_eq!(err.message(), "Failed to start ARIA backend: No such file");
    assert!(!node.is_starting());
    assert!(node.begin_start().is_ok());
}

#[test]
fn teardown_during_start_fails_the_start() {
    let mut node = NodeState::new();
    node.begin_start().unwrap();
    node.launched(77);
    assert_eq!(node.torn_down(), Some(77));
    let (res, reap) = node.finish_start(77, Ok(ready_summary(&report("x", 0))), 5);
    assert!(matches!(res, Err(NodeError::StoppedDuringStart)));
    assert!(reap.is_none());
    assert!(!node.is_running());
}

#[test]
fn teardown_of_running_node() {
    let mut node = NodeState::new();
    node.begin_start().unwrap();
    node.launched(8);
    node.finish_start(8, Ok(ready_summary(&report("x", 0))), 5).0.unwrap();
    assert_eq!(node.torn_down(), Some(8));
    assert!(!node.is_running());
    assert_eq!(node.torn_down(), None);
    assert_eq!(node.uptime(100), 0);
}

#[test]
fn proxy_endpoints_need_running_node() {
    let mut node = NodeState::new();
    let e = node.download_endpoint().unwrap_err();
    assert_eq!(e.message(), "Backend is not running. Start the node first.");
    let e = node.inference_endpoint().unwrap_err();
    assert_eq!(e.message(), "Backend is not running. Start the node first to send inference requests.");
    node.begin_start().unwrap();
    node.launched(3);
    node.finish_start(3, Ok(ready_summary(&report("x", 0))), 5).0.unwrap();
    assert_eq!(node.download_endpoint().unwrap(), "http://127.0.0.1:3000/v1/models/download");
    assert_eq!(node.inference_endpoint().unwrap(), "http://127.0.0.1:3000/v1/chat/completions");
    assert_eq!(node.endpoint(DOWNLOAD_PATH).unwrap(), "http://127.0.0.1:3000/v1/models/download");
}

#[test]
fn error_messages() {
    assert_eq!(
        NodeError::InterpreterMissing.message(),
        "Python 3 not found in PATH. Install Python 3.10+ and ensure it is in your system PATH."
    );
    assert_eq!(
        NodeError::BackendMissing.message(),
        "ARIA package not found. Run: pip install -e \".[dev]\" from the aria-protocol directory."
    );
    assert_eq!(
        NodeError::StatusCheckFailed("denied".to_string()).message(),
        "Failed to check process status: denied"
    );
    assert_eq!(NodeError::ReadyTimeout(8080).message(),
        "ARIA API server failed to start within 30 seconds. Check that port 8080 is available.");
    assert_eq!(NodeError::StoppedDuringStart.message(), "Node was stopped before it became ready");
}

#[test]
fn check_failure_fails_start() {
    let mut p = ReadinessPoller::new();
    let out = p.observe(PollEvent::Liveness(Liveness::CheckFailed("io".to_string()))).unwrap();
    let mut node = NodeState::new();
    node.begin_start().unwrap();
    node.launched(4);
    let (res, reap) = node.finish_start(4, out, 1);
    assert_eq!(res.unwrap_err().message(), "Failed to check process status: io");
    assert_eq!(reap, Some(4));
}

#[test]
fn base_url_for_port() {
    assert_eq!(base_url_for(3000), "http://127.0.0.1:3000");
    assert_eq!(base_url_for(0), "http://127.0.0.1:0");
    assert_eq!(base_url_for(65535), "http://127.0.0.1:65535");
}

#[test]
fn default_record_is_idle() {
    let node = NodeState::default();
    assert!(!node.is_running());
    assert!(!node.is_starting());
    assert_eq!(node.port(), 3000);
    assert_eq!(node.api_base(), "http://127.0.0.1:3000");
    assert!(node.started_at().is_none());
    assert!(node.pid().is_none());
}
