//! The readiness poller: after a spawn, alternately check that the process is
//! alive and probe the health endpoint, until the endpoint answers, the
//! process dies, or the attempt budget runs out.

use vstd::prelude::*;
use vstd::string::*;
use crate::error::ReadinessError;
use crate::types::StatusReport;

verus! {

/// Health probes made before giving up.
pub const MAX_ATTEMPTS: u32 = 60;

/// Pause before each liveness check, in milliseconds.
pub const POLL_INTERVAL_MS: u64 = 500;

/// Timeout of one health probe, in seconds.
pub const PROBE_TIMEOUT_SECS: u64 = 2;

/// What a non-blocking poll of the process's exit status found.
#[derive(Debug, Clone)]
pub enum Liveness {
    Alive,
    /// The process has exited; holds the exit status as text.
    Exited(String),
    /// The exit status could not be queried; holds the error as text.
    CheckFailed(String),
}

/// One observation handed to the poller.
#[derive(Debug, Clone)]
pub enum PollEvent {
    Liveness(Liveness),
    /// A health probe: the decoded body of a success response, or `None`
    /// for a network error or a non-success status.
    Health(Option<StatusReport>),
}

/// What the caller should do next.
#[derive(Debug, Clone, Copy, PartialEq, Eq, Structural)]
pub enum PollStep {
    /// Sleep for the poll interval, then report the process's liveness.
    CheckLiveness,
    /// Probe the health endpoint and report the answer.
    ProbeHealth,
    /// Polling is over.
    Done,
}

/// The shape of an observation, without its payload.
#[derive(Debug, Clone, Copy, PartialEq, Eq, Structural)]
pub enum EventKind {
    Alive,
    Exited,
    CheckFailed,
    Answered,
    NoAnswer,
}

/// How polling ended.
#[derive(Debug, Clone, Copy, PartialEq, Eq, Structural)]
pub enum PollEnd {
    Ready,
    Exited,
    CheckFailed,
    TimedOut,
}

/// What the backend reported once it was ready.
#[derive(Debug, Clone)]
pub struct ReadySummary {
    pub backend: String,
    pub models_count: usize,
}

pub open spec fn event_kind(e: PollEvent) -> EventKind {
    match e {
        PollEvent::Liveness(Liveness::Alive) => EventKind::Alive,
        PollEvent::Liveness(Liveness::Exited(_)) => EventKind::Exited,
        PollEvent::Liveness(Liveness::CheckFailed(_)) => EventKind::CheckFailed,
        PollEvent::Health(Some(_)) => EventKind::Answered,
        PollEvent::Health(None) => EventKind::NoAnswer,
    }
}

/// The backend name of a health answer: the reported one, else "simulation".
pub open spec fn summary_backend(r: StatusReport) -> Seq<char> {
    match r.backend {
        Some(b) => b@,
        None => "simulation"@,
    }
}

/// The model count of a health answer: the reported one, else zero.
pub open spec fn summary_models(r: StatusReport) -> usize {
    match r.models_count {
        Some(n) => n as usize,
        None => 0,
    }
}

/// Reads the readiness summary out of a health answer.
pub fn ready_summary(r: &StatusReport) -> (s: ReadySummary)
    ensures
        s.backend@ == summary_backend(*r),
        s.models_count == summary_models(*r),
{
    let backend = match &r.backend {
        Some(b) => String::from_str(b.as_str()),
        None => String::from_str("simulation"),
    };
    let models_count = match r.models_count {
        Some(n) => n as usize,
        None => 0,
    };
    ReadySummary { backend, models_count }
}

/// State of one readiness cycle.
#[derive(Debug, Clone, Copy, PartialEq, Eq, Structural)]
pub struct ReadinessPoller {
    /// Health probes answered with failure so far.
    pub attempts: u32,
    /// The last liveness check found the process alive and a probe is due.
    pub awaiting_health: bool,
    pub end: Option<PollEnd>,
}

impl ReadinessPoller {
    /// The attempt count stays within the budget, and polling is over once
    /// the budget is spent.
    pub open spec fn wf(self) -> bool {
        &&& self.attempts <= MAX_ATTEMPTS
        &&& self.end.is_none() ==> self.attempts < MAX_ATTEMPTS
    }

    pub open spec fn initial() -> ReadinessPoller {
        ReadinessPoller { attempts: 0, awaiting_health: false, end: None }
    }

    pub open spec fn step_spec(self) -> PollStep {
        if self.end.is_some() {
            PollStep::Done
        } else if self.awaiting_health {
            PollStep::ProbeHealth
        } else {
            PollStep::CheckLiveness
        }
    }

    /// The state after one observation. An observation that does not fit the
    /// current step, and any observation after the end, changes nothing.
    pub open spec fn next(self, k: EventKind) -> ReadinessPoller {
        if self.end.is_some() {
            self
        } else if !self.awaiting_health {
            match k {
                EventKind::Alive => ReadinessPoller { awaiting_health: true, ..self },
                EventKind::Exited => ReadinessPoller { end: Some(PollEnd::Exited), ..self },
                EventKind::CheckFailed => ReadinessPoller { end: Some(PollEnd::CheckFailed), ..self },
                _ => self,
            }
        } else {
            match k {
                EventKind::Answered => ReadinessPoller { end: Some(PollEnd::Ready), ..self },
                EventKind::NoAnswer => ReadinessPoller {
                    attempts: (self.attempts + 1) as u32,
                    awaiting_health: false,
                    end: if self.attempts + 1 >= MAX_ATTEMPTS {
                        Some(PollEnd::TimedOut)
                    } else {
                        None
                    },
                },
                _ => self,
            }
        }
    }

    /// The state after a sequence of observations.
    pub open spec fn run(self, ks: Seq<EventKind>) -> ReadinessPoller
        decreases ks.len(),
    {
        if ks.len() == 0 {
            self
        } else {
            self.next(ks[0]).run(ks.drop_first())
        }
    }

    /// Health probes that the observations `ks` answer, starting from `self`.
    pub open spec fn probes(self, ks: Seq<EventKind>) -> nat
        decreases ks.len(),
    {
        if ks.len() == 0 {
            0
        } else {
            (if self.step_spec() == PollStep::ProbeHealth { 1nat } else { 0nat })
                + self.next(ks[0]).probes(ks.drop_first())
        }
    }

    pub fn new() -> (r: ReadinessPoller)
        ensures
            r == ReadinessPoller::initial(),
            r.wf(),
    {
        ReadinessPoller { attempts: 0, awaiting_health: false, end: None }
    }

    /// What the caller should do next.
    pub fn next_step(&self) -> (r: PollStep)
        ensures
            r == self.step_spec(),
    {
        if self.end.is_some() {
            PollStep::Done
        } else if self.awaiting_health {
            PollStep::ProbeHealth
        } else {
            PollStep::CheckLiveness
        }
    }

    /// Takes one observation. When it ends polling, the outcome is returned,
    /// once: success with the reported summary, the exit status or query
    /// error of the process, or the timeout.
    pub fn observe(&mut self, ev: PollEvent) -> (r: Option<Result<ReadySummary, ReadinessError>>)
        requires
            old(self).wf(),
        ensures
            *final(self) == old(self).next(event_kind(ev)),
            final(self).wf(),
            r.is_some() == (old(self).end.is_none() && final(self).end.is_some()),
            old(self).end.is_none() && !old(self).awaiting_health ==> match ev {
                PollEvent::Liveness(Liveness::Exited(s)) =>
                    r == Some(Result::<ReadySummary, ReadinessError>::Err(ReadinessError::ProcessExited(s))),
                PollEvent::Liveness(Liveness::CheckFailed(s)) =>
                    r == Some(Result::<ReadySummary, ReadinessError>::Err(ReadinessError::CheckFailed(s))),
                _ => true,
            },
            old(self).end.is_none() && old(self).awaiting_health ==> match ev {
                PollEvent::Health(Some(rep)) => match r {
                    Some(Ok(s)) => s.backend@ == summary_backend(rep)
                        && s.models_count == summary_models(rep),
                    _ => false,
                },
                PollEvent::Health(None) => final(self).end == Some(PollEnd::TimedOut) ==>
                    r == Some(Result::<ReadySummary, ReadinessError>::Err(ReadinessError::Timeout)),
                _ => true,
            },
    {
        if self.end.is_some() {
            return None;
        }
        if !self.awaiting_health {
            match ev {
                PollEvent::Liveness(Liveness::Alive) => {
                    self.awaiting_health = true;
                    None
                },
                PollEvent::Liveness(Liveness::Exited(s)) => {
                    self.end = Some(PollEnd::Exited);
                    Some(Err(ReadinessError::ProcessExited(s)))
                },
                PollEvent::Liveness(Liveness::CheckFailed(s)) => {
                    self.end = Some(PollEnd::CheckFailed);
                    Some(Err(ReadinessError::CheckFailed(s)))
                },
                PollEvent::Health(_) => None,
            }
        } else {
            match ev {
                PollEvent::Health(Some(rep)) => {
                    self.end = Some(PollEnd::Ready);
                    Some(Ok(ready_summary(&rep)))
                },
                PollEvent::Health(None) => {
                    self.attempts = self.attempts + 1;
                    self.awaiting_health = false;
                    if self.attempts >= MAX_ATTEMPTS {
                        self.end = Some(PollEnd::TimedOut);
                        Some(Err(ReadinessError::Timeout))
                    } else {
                        None
                    }
                },
                PollEvent::Liveness(_) => None,
            }
        }
    }
}

} // verus!

verus! {

/// `n` polling rounds in which the process is alive and the probe fails.
pub open spec fn silent_rounds(n: nat) -> Seq<EventKind>
    decreases n,
{
    if n == 0 {
        Seq::empty()
    } else {
        seq![EventKind::Alive, EventKind::NoAnswer] + silent_rounds((n - 1) as nat)
    }
}

proof fn lemma_end_is_absorbing(p: ReadinessPoller, ks: Seq<EventKind>)
    requires
        p.end.is_some(),
    ensures
        p.run(ks) == p,
        p.probes(ks) == 0,
    decreases ks.len(),
{
    if ks.len() > 0 {
        lemma_end_is_absorbing(p.next(ks[0]), ks.drop_first());
    }
}

/// Once a liveness check finds the process exited, polling ends with the
/// exit as its outcome: no observation that follows changes that, and no
/// further health probe is asked for.
pub proof fn lemma_exit_stops_probing(p: ReadinessPoller, later: Seq<EventKind>)
    requires
        p.wf(),
        p.step_spec() == PollStep::CheckLiveness,
    ensures
        p.next(EventKind::Exited).end == Some(PollEnd::Exited),
        p.next(EventKind::Exited).step_spec() == PollStep::Done,
        p.next(EventKind::Exited).run(later) == p.next(EventKind::Exited),
        p.next(EventKind::Exited).probes(later) == 0,
{
    lemma_end_is_absorbing(p.next(EventKind::Exited), later);
}

proof fn lemma_silent_rounds_end(p: ReadinessPoller, n: nat)
    requires
        p.wf(),
        p.end.is_none(),
        !p.awaiting_health,
        n >= 1,
        p.attempts + n == MAX_ATTEMPTS,
    ensures
        p.run(silent_rounds(n)).end == Some(PollEnd::TimedOut),
    decreases n,
{
    let ks = silent_rounds(n);
    let rest = silent_rounds((n - 1) as nat);
    assert(ks =~= seq![EventKind::Alive, EventKind::NoAnswer] + rest);
    assert(ks[0] == EventKind::Alive);
    assert(ks.drop_first()[0] == EventKind::NoAnswer);
    assert(ks.drop_first().drop_first() =~= rest);
    let a = p.next(EventKind::Alive);
    let q = a.next(EventKind::NoAnswer);
    assert(p.run(ks) == a.run(ks.drop_first()));
    assert(a.run(ks.drop_first()) == q.run(rest));
    if n == 1 {
        assert(q.end == Some(PollEnd::TimedOut));
        lemma_end_is_absorbing(q, rest);
    } else {
        lemma_silent_rounds_end(q, (n - 1) as nat);
    }
}

/// A backend that is alive but never answers the health probe exhausts the
/// attempt budget: after that many rounds polling ends in a timeout.
pub proof fn lemma_silent_backend_times_out()
    ensures
        ReadinessPoller::initial().run(silent_rounds(MAX_ATTEMPTS as nat)).end
            == Some(PollEnd::TimedOut),
{
    lemma_silent_rounds_end(ReadinessPoller::initial(), MAX_ATTEMPTS as nat);
}

/// Without an answered probe, polling never ends in success.
pub proof fn lemma_no_answer_no_ready(p: ReadinessPoller, ks: Seq<EventKind>)
    requires
        p.end != Some(PollEnd::Ready),
        forall|i: int| 0 <= i < ks.len() ==> ks[i] != EventKind::Answered,
    ensures
        p.run(ks).end != Some(PollEnd::Ready),
    decreases ks.len(),
{
    if ks.len() > 0 {
        assert(ks[0] != EventKind::Answered);
        lemma_no_answer_no_ready(p.next(ks[0]), ks.drop_first());
    }
}

} // verus!
