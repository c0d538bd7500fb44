//! The lease of a pod: keep-alive tickets and the garbage collector that
//! deletes the pod once its ticket expires.
use vstd::prelude::*;
use crate::error::{AcmError, ErrorKind, is_error};
use crate::pod::Pod;
use crate::text::{decimal, decimal_of};

verus! {

/// The lease of a pod when none is asked for, in seconds.
pub const DEFAULT_TTL: u64 = 1800;
/// Milliseconds in a second.
pub const MILLIS_PER_SECOND: u64 = 1000;

/// The two clocks read at one moment: the wall clock in seconds since the
/// epoch, and a monotonic clock in milliseconds.
#[derive(Clone, Copy, Debug, PartialEq, Eq, Structural)]
pub struct Clock {
    pub wall: i64,
    pub mono_ms: u64,
}

/// A lease can be computed from `now` for `ttl` seconds without overflow.
pub open spec fn lease_fits(now: Clock, ttl: u64) -> bool {
    &&& now.wall + ttl <= i64::MAX
    &&& now.mono_ms + ttl * MILLIS_PER_SECOND <= u64::MAX
}

/// Whether a lease can be computed from `now` for `ttl` seconds.
pub fn lease_fits_at(now: Clock, ttl: u64) -> (r: bool)
    ensures
        r == lease_fits(now, ttl),
{
    let wall_end: i128 = now.wall as i128 + ttl as i128;
    let mono_end: u128 = now.mono_ms as u128 + ttl as u128 * MILLIS_PER_SECOND as u128;
    wall_end <= i64::MAX as i128 && mono_end <= u64::MAX as u128
}

/// A lease on a pod: the pod's name, the wall-clock second at which it expires
/// (for display), and the monotonic millisecond at which it expires (for the
/// countdown).
#[derive(Debug)]
pub struct KeepAliveTicket {
    pub ticket: String,
    pub execution_date: i64,
    pub deadline_ms: u64,
}

/// A merge patch that sets one label of a pod.
#[derive(Debug)]
pub struct LabelPatch {
    pub key: String,
    pub value: String,
}

impl KeepAliveTicket {
    /// The ticket of `pod` issued at `now` for `ttl` seconds.
    pub fn new(pod: &str, ttl: u64, now: Clock) -> (r: KeepAliveTicket)
        requires
            lease_fits(now, ttl),
        ensures
            r.ticket@ == pod@,
            r.execution_date == now.wall + ttl,
            r.deadline_ms == now.mono_ms + ttl * MILLIS_PER_SECOND,
    {
        KeepAliveTicket {
            ticket: String::from_str(pod),
            execution_date: now.wall + ttl as i64,
            deadline_ms: now.mono_ms + ttl * MILLIS_PER_SECOND,
        }
    }

    /// A copy of this ticket.
    pub fn copy(&self) -> (r: KeepAliveTicket)
        ensures
            r == *self,
    {
        KeepAliveTicket { ticket: self.ticket.clone(), execution_date: self.execution_date, deadline_ms: self.deadline_ms }
    }

    /// The patch that records the expiry of this ticket in the pod's
    /// `execution_date` label.
    pub fn pod_patch(&self) -> (r: LabelPatch)
        ensures
            r.key@ == "execution_date"@,
            r.value@ == decimal_of(self.execution_date as int),
    {
        LabelPatch { key: String::from_str("execution_date"), value: decimal(self.execution_date) }
    }

    /// Whether the lease has run out at monotonic millisecond `now_ms`.
    pub fn expired(&self, now_ms: u64) -> (r: bool)
        ensures
            r == (now_ms >= self.deadline_ms),
    {
        now_ms >= self.deadline_ms
    }
}

/// What the event watcher tells the garbage collector.
#[derive(Debug)]
pub enum GcStatus {
    Running(Box<Pod>),
    Terminated,
}

/// What the garbage collector can observe next.
pub enum GcEvent {
    /// The next status from the event watcher; `None` once its channel closed.
    Status(Option<GcStatus>),
    /// A refresh request that waits for a ticket.
    Refresh,
    /// The refresh channel was closed.
    RefreshChannelClosed,
    /// The monotonic clock passed the current ticket's deadline.
    DeadlineReached,
}

/// Where the garbage collector stands.
pub enum GcState {
    /// Waiting for the pod to run; no countdown yet.
    Armed,
    /// Counting down the current ticket.
    Counting { ticket: KeepAliveTicket },
    /// Done; it acts no more.
    Finished,
}

/// What the garbage collector asks of its surroundings.
#[derive(Debug)]
pub enum GcAction {
    /// Set the pod's `execution_date` label.
    Patch(LabelPatch),
    /// Hand a fresh ticket to the refresh request that waits for one.
    Reply(KeepAliveTicket),
    /// Delete the pod.
    DeletePod,
}

/// The abstract phase of a garbage collector: the deadline is what counts.
pub enum GcPhase {
    Armed,
    Counting { deadline: nat },
    Finished,
}

/// The phase of a state.
pub open spec fn phase_of(s: GcState) -> GcPhase {
    match s {
        GcState::Armed => GcPhase::Armed,
        GcState::Counting { ticket } => GcPhase::Counting { deadline: ticket.deadline_ms as nat },
        GcState::Finished => GcPhase::Finished,
    }
}

/// The deadline of a lease issued at `now` for `ttl` seconds.
pub open spec fn deadline_at(now: Clock, ttl: u64) -> nat {
    (now.mono_ms + ttl * MILLIS_PER_SECOND) as nat
}

/// The phase after `e` is observed at `now`.
pub open spec fn next_phase(p: GcPhase, e: GcEvent, now: Clock, ttl: u64) -> GcPhase {
    match p {
        GcPhase::Armed => match e {
            GcEvent::Status(Some(GcStatus::Running(_))) => GcPhase::Counting { deadline: deadline_at(now, ttl) },
            GcEvent::Status(_) => GcPhase::Finished,
            _ => p,
        },
        GcPhase::Counting { deadline } => match e {
            GcEvent::Refresh => GcPhase::Counting { deadline: deadline_at(now, ttl) },
            GcEvent::RefreshChannelClosed => p,
            GcEvent::Status(Some(GcStatus::Running(_))) => p,
            _ => GcPhase::Finished,
        },
        GcPhase::Finished => p,
    }
}

/// Whether observing `e` in phase `p` deletes the pod: the deadline passed, or
/// the watcher vanished without a signal while counting down.
pub open spec fn deletes_pod(p: GcPhase, e: GcEvent) -> bool {
    p is Counting && (e is DeadlineReached || e == GcEvent::Status(None))
}

/// The events that the garbage collector waits for in phase `p`: only the
/// watcher's status before the countdown starts.
pub open spec fn listens_to(p: GcPhase, e: GcEvent) -> bool {
    p is Armed ==> e is Status
}

/// The garbage collector of one pod.
pub struct GarbageCollectorDaemon {
    pub pod: String,
    pub ttl: u64,
    pub state: GcState,
}

impl GarbageCollectorDaemon {
    /// The ticket being counted down is always one for this pod.
    pub open spec fn wf(&self) -> bool {
        self.state matches GcState::Counting { ticket } ==> ticket.ticket@ == self.pod@
    }

    /// A garbage collector for `pod` with leases of `ttl` seconds, waiting for
    /// the pod to run.
    pub fn new(pod: String, ttl: u64) -> (r: GarbageCollectorDaemon)
        ensures
            r.pod == pod,
            r.ttl == ttl,
            r.state is Armed,
            r.wf(),
    {
        GarbageCollectorDaemon { pod, ttl, state: GcState::Armed }
    }

    /// Whether the garbage collector still runs.
    pub fn is_running(&self) -> (r: bool)
        ensures
            r == !(self.state is Finished),
    {
        !matches!(self.state, GcState::Finished)
    }

    /// Whether it takes refresh requests and deadlines into account yet.
    pub fn counting(&self) -> (r: bool)
        ensures
            r == (self.state is Counting),
    {
        matches!(self.state, GcState::Counting { .. })
    }

    /// Observes `event` at `now` and returns what to do, in order.
    ///
    /// Armed: `Running` starts the countdown and labels the pod; `Terminated`
    /// or a closed channel end it. Counting: a refresh issues a new ticket,
    /// replies with it and labels the pod; the deadline, or a watcher gone
    /// without a signal, deletes the pod and ends it; `Terminated` ends it
    /// without a delete; `Running` and a closed refresh channel change nothing.
    pub fn step(&mut self, event: GcEvent, now: Clock) -> (r: Vec<GcAction>)
        requires
            old(self).wf(),
            lease_fits(now, old(self).ttl),
            listens_to(phase_of(old(self).state), event),
        ensures
            final(self).pod == old(self).pod,
            final(self).ttl == old(self).ttl,
            phase_of(final(self).state) == next_phase(phase_of(old(self).state), event, now, old(self).ttl),
            final(self).wf(),
            deletes_pod(phase_of(old(self).state), event) <==> (r@.len() == 1 && r@[0] is DeletePod),
            (old(self).state is Armed && event matches GcEvent::Status(Some(GcStatus::Running(_)))) ==> {
                &&& r@.len() == 1
                &&& (r@[0] matches GcAction::Patch(p) && final(self).state matches GcState::Counting { ticket }
                    && p.key@ == "execution_date"@ && p.value@ == decimal_of(ticket.execution_date as int))
            },
            (old(self).state is Counting && event is Refresh) ==> {
                &&& r@.len() == 2
                &&& (r@[0] matches GcAction::Reply(t) && final(self).state matches GcState::Counting { ticket } && t == ticket)
                &&& (r@[1] matches GcAction::Patch(p) && final(self).state matches GcState::Counting { ticket }
                    && p.key@ == "execution_date"@ && p.value@ == decimal_of(ticket.execution_date as int))
                &&& (final(self).state matches GcState::Counting { ticket }
                    && ticket.execution_date == now.wall + old(self).ttl)
            },
            !(old(self).state is Armed && event matches GcEvent::Status(Some(GcStatus::Running(_))))
                && !(old(self).state is Counting && event is Refresh)
                && !deletes_pod(phase_of(old(self).state), event) ==> r@.len() == 0,
    {
        let mut actions: Vec<GcAction> = Vec::new();
        match &self.state {
            GcState::Armed => match event {
                GcEvent::Status(Some(GcStatus::Running(_))) => {
                    let ticket = KeepAliveTicket::new(self.pod.as_str(), self.ttl, now);
                    actions.push(GcAction::Patch(ticket.pod_patch()));
                    self.state = GcState::Counting { ticket };
                },
                _ => {
                    self.state = GcState::Finished;
                },
            },
            GcState::Counting { ticket } => match event {
                GcEvent::Refresh => {
                    let fresh = KeepAliveTicket::new(self.pod.as_str(), self.ttl, now);
                    actions.push(GcAction::Reply(fresh.copy()));
                    actions.push(GcAction::Patch(fresh.pod_patch()));
                    self.state = GcState::Counting { ticket: fresh };
                },
                GcEvent::RefreshChannelClosed | GcEvent::Status(Some(GcStatus::Running(_))) => {
                    self.state = GcState::Counting { ticket: ticket.copy() };
                },
                GcEvent::Status(Some(GcStatus::Terminated)) => {
                    self.state = GcState::Finished;
                },
                GcEvent::Status(None) | GcEvent::DeadlineReached => {
                    actions.push(GcAction::DeletePod);
                    self.state = GcState::Finished;
                },
            },
            GcState::Finished => {
                self.state = GcState::Finished;
            },
        }
        actions
    }
}

/// The outcome of a refresh request: the ticket that the garbage collector
/// replied with, or `RefreshChannelClosed` when the request could not be
/// sent or no reply came.
pub fn refresh_result(reply: Option<KeepAliveTicket>) -> (r: Result<KeepAliveTicket, AcmError>)
    ensures
        reply matches Some(t) ==> r == Ok::<KeepAliveTicket, AcmError>(t),
        reply is None ==> (r matches Err(e) && is_error(e, ErrorKind::RefreshChannelClosed, None)),
{
    match reply {
        Some(t) => Ok(t),
        None => Err(AcmError::of(ErrorKind::RefreshChannelClosed)),
    }
}

/// The phase after a run of refresh requests observed at the given moments.
pub open spec fn after_refreshes(p: GcPhase, times: Seq<Clock>, ttl: u64) -> GcPhase
    decreases times.len(),
{
    if times.len() == 0 {
        p
    } else {
        after_refreshes(next_phase(p, GcEvent::Refresh, times[0], ttl), times.drop_first(), ttl)
    }
}

/// Refreshing is idempotent in effect: after any non-empty run of refreshes
/// while counting down, the deadline is the last refresh's moment plus the
/// lease, whatever the deadline was before.
pub proof fn lemma_refreshes_keep_last_deadline(p: GcPhase, times: Seq<Clock>, ttl: u64)
    requires
        p is Counting,
        times.len() > 0,
    ensures
        after_refreshes(p, times, ttl) == (GcPhase::Counting { deadline: deadline_at(times.last(), ttl) }),
    decreases times.len(),
{
    let q = next_phase(p, GcEvent::Refresh, times[0], ttl);
    assert(after_refreshes(p, times, ttl) == after_refreshes(q, times.drop_first(), ttl));
    if times.len() == 1 {
        assert(times.drop_first().len() == 0);
        assert(times.last() == times[0]);
    } else {
        lemma_refreshes_keep_last_deadline(q, times.drop_first(), ttl);
        assert(times.drop_first().last() == times.last());
    }
}

} // verus!
