//! The event watcher: the three-phase state machine that follows one pod's
//! Kubernetes events, drives its health check and its garbage collector, and
//! delivers the verdict to the waiting client.
use vstd::prelude::*;
use crate::error::{AcmError, ErrorKind, is_error};
use crate::garbage_collector::GcStatus;
use crate::pod::{
    Pod, address_failure, first_waiting, image_pull_reason, states_of, is_crashed, is_err_image_pull, is_running,
    is_terminated, same_pod, spec_address,
};

verus! {

/// What the health check reported, as the watcher sees it.
pub enum HealthOutcome {
    /// The check vanished without a verdict.
    Dropped,
    /// The check judged the pod ill-behaved.
    Failed(AcmError),
    /// The pod's server answered.
    Healthy,
}

/// What the event watcher observes.
pub enum WatchEvent {
    /// The watch stream failed; `retry` when the backoff gave another
    /// interval, with the time spent failing so far as text.
    StreamError { retry: bool, elapsed: String },
    /// The watch stream ended.
    StreamClosed,
    Added,
    Restarted,
    Deleted,
    Applied(Pod),
    /// The verdict of the health check.
    HealthCheck(HealthOutcome),
    /// The garbage collector did not take the `Running` signal.
    GcRefused,
    /// Whether the healthy pod reached the client's handle.
    Delivered(bool),
}

/// What the event watcher asks of its surroundings, in order.
pub enum WatchEffect {
    /// Sleep for the backoff's interval.
    Sleep,
    /// Start the backoff over.
    ResetBackoff,
    /// Signal the garbage collector.
    Gc(GcStatus),
    /// Start the health check of the server at this address.
    StartHealthCheck(String),
    /// Cancel the health check and wait for it.
    KillHealthCheck,
    /// Wait for the health check to end.
    JoinHealthCheck,
    /// Hand the verdict to the client's handle.
    Deliver(Result<Pod, AcmError>),
    /// Delete the pod (best effort).
    DeletePod,
}

/// The three phases, their hand-over, and the end.
pub enum WatchPhase {
    /// Phase 1: waiting for a container to run.
    AwaitRunning,
    /// Phase 2: the health check runs on this snapshot.
    HealthCheck { snapshot: Pod },
    /// The healthy pod is being handed to the client.
    Delivering,
    /// Phase 3: living alongside the healthy pod.
    Steady,
    Done,
}

/// A phase without its data.
#[derive(Clone, Copy, Debug, PartialEq, Eq, Structural)]
pub enum WatchStage {
    AwaitRunning,
    HealthCheck,
    Delivering,
    Steady,
    Done,
}

/// An effect without its data.
#[derive(Clone, Copy, Debug, PartialEq, Eq, Structural)]
pub enum Signal {
    Sleep,
    ResetBackoff,
    GcRunning,
    GcTerminated,
    StartHealthCheck,
    KillHealthCheck,
    JoinHealthCheck,
    DeliverOk,
    DeliverErr(ErrorKind),
    DeletePod,
}

pub open spec fn stage_of(p: WatchPhase) -> WatchStage {
    match p {
        WatchPhase::AwaitRunning => WatchStage::AwaitRunning,
        WatchPhase::HealthCheck { .. } => WatchStage::HealthCheck,
        WatchPhase::Delivering => WatchStage::Delivering,
        WatchPhase::Steady => WatchStage::Steady,
        WatchPhase::Done => WatchStage::Done,
    }
}

pub open spec fn signal_of(e: WatchEffect) -> Signal {
    match e {
        WatchEffect::Sleep => Signal::Sleep,
        WatchEffect::ResetBackoff => Signal::ResetBackoff,
        WatchEffect::Gc(GcStatus::Running(_)) => Signal::GcRunning,
        WatchEffect::Gc(GcStatus::Terminated) => Signal::GcTerminated,
        WatchEffect::StartHealthCheck(_) => Signal::StartHealthCheck,
        WatchEffect::KillHealthCheck => Signal::KillHealthCheck,
        WatchEffect::JoinHealthCheck => Signal::JoinHealthCheck,
        WatchEffect::Deliver(Ok(_)) => Signal::DeliverOk,
        WatchEffect::Deliver(Err(e)) => Signal::DeliverErr(e.kind),
        WatchEffect::DeletePod => Signal::DeletePod,
    }
}

pub open spec fn signals_of(effects: Seq<WatchEffect>) -> Seq<Signal> {
    effects.map_values(|e: WatchEffect| signal_of(e))
}

/// The end of every failure: the error goes to the client, the garbage
/// collector is told to stop, and the pod is deleted.
pub open spec fn terminate(k: ErrorKind) -> Seq<Signal> {
    seq![Signal::DeliverErr(k), Signal::GcTerminated, Signal::DeletePod]
}

/// The events that the watcher waits for in each stage.
pub open spec fn watch_accepts(s: WatchStage, e: WatchEvent) -> bool {
    match s {
        WatchStage::AwaitRunning => !(e is HealthCheck || e is GcRefused || e is Delivered),
        WatchStage::HealthCheck => !(e is Delivered),
        WatchStage::Delivering => e is Delivered,
        WatchStage::Steady => !(e is HealthCheck || e is GcRefused || e is Delivered),
        WatchStage::Done => false,
    }
}

/// Phase 1 on an updated pod.
pub open spec fn on_applied(p: Pod) -> (WatchStage, Seq<Signal>) {
    if is_running(p) {
        match address_failure(p) {
            None => (WatchStage::HealthCheck, seq![Signal::ResetBackoff, Signal::GcRunning, Signal::StartHealthCheck]),
            Some(k) => (WatchStage::Done, seq![Signal::ResetBackoff, Signal::GcRunning] + terminate(k)),
        }
    } else if is_terminated(p) || is_crashed(p) {
        (WatchStage::Done, seq![Signal::ResetBackoff] + terminate(ErrorKind::PodCrashed))
    } else if is_err_image_pull(p) {
        (WatchStage::Done, seq![Signal::ResetBackoff] + terminate(ErrorKind::ErrImagePull))
    } else {
        (WatchStage::AwaitRunning, seq![Signal::ResetBackoff])
    }
}

/// The next stage and the effects, without their data, of observing `e` in stage `s`.
pub open spec fn watch_next(s: WatchStage, e: WatchEvent) -> (WatchStage, Seq<Signal>) {
    match s {
        WatchStage::AwaitRunning => match e {
            WatchEvent::StreamError { retry, .. } => if retry {
                (s, seq![Signal::Sleep])
            } else {
                (WatchStage::Done, terminate(ErrorKind::KubernetesUnresponsive))
            },
            WatchEvent::StreamClosed => (WatchStage::Done, seq![Signal::ResetBackoff] + terminate(ErrorKind::UnexpectedCloseOfEventStream)),
            WatchEvent::Deleted => (WatchStage::Done, seq![Signal::ResetBackoff] + terminate(ErrorKind::PodDeleted)),
            WatchEvent::Applied(p) => on_applied(p),
            _ => (s, seq![Signal::ResetBackoff]),
        },
        WatchStage::HealthCheck => match e {
            WatchEvent::StreamError { retry, .. } => if retry {
                (s, seq![Signal::Sleep])
            } else {
                (WatchStage::Done, seq![Signal::KillHealthCheck] + terminate(ErrorKind::KubernetesUnresponsive))
            },
            WatchEvent::StreamClosed => (WatchStage::Done, seq![Signal::KillHealthCheck] + terminate(ErrorKind::UnexpectedCloseOfEventStream)),
            WatchEvent::Deleted => (WatchStage::Done, seq![Signal::KillHealthCheck] + terminate(ErrorKind::PodDeleted)),
            WatchEvent::Restarted => (WatchStage::Done, seq![Signal::KillHealthCheck] + terminate(ErrorKind::PodRebooted)),
            WatchEvent::GcRefused => (WatchStage::Done, seq![Signal::KillHealthCheck] + terminate(ErrorKind::GarbageCollectorUnresponsive)),
            WatchEvent::HealthCheck(HealthOutcome::Dropped) => (WatchStage::Done, seq![Signal::JoinHealthCheck] + terminate(ErrorKind::HealthCheckDroppedItsChannel)),
            WatchEvent::HealthCheck(HealthOutcome::Failed(err)) => (WatchStage::Done, seq![Signal::JoinHealthCheck] + terminate(err.kind)),
            WatchEvent::HealthCheck(HealthOutcome::Healthy) => (WatchStage::Delivering, seq![Signal::JoinHealthCheck, Signal::DeliverOk]),
            _ => (s, seq![Signal::ResetBackoff]),
        },
        WatchStage::Delivering => match e {
            WatchEvent::Delivered(true) => (WatchStage::Steady, Seq::empty()),
            _ => (WatchStage::Done, seq![Signal::GcTerminated, Signal::DeletePod]),
        },
        WatchStage::Steady => match e {
            WatchEvent::StreamError { retry, .. } => if retry {
                (s, seq![Signal::Sleep])
            } else {
                (WatchStage::Done, terminate(ErrorKind::KubernetesUnresponsive))
            },
            WatchEvent::StreamClosed => (WatchStage::Done, seq![Signal::ResetBackoff] + terminate(ErrorKind::UnexpectedCloseOfEventStream)),
            WatchEvent::Deleted => (WatchStage::Done, seq![Signal::ResetBackoff, Signal::GcTerminated]),
            WatchEvent::Restarted => (WatchStage::Done, seq![Signal::ResetBackoff] + terminate(ErrorKind::PodRebooted)),
            _ => (s, seq![Signal::ResetBackoff]),
        },
        WatchStage::Done => (s, Seq::empty()),
    }
}

/// Phase 1 hands a running pod to the garbage collector and, when its address
/// is known, keeps it as the snapshot and starts the health check there; a
/// pod whose image could not be pulled yields `ErrImagePull` with the waiting
/// message of the first such container as its cause.
pub open spec fn applied_payloads(event: WatchEvent, next: WatchPhase, effects: Seq<WatchEffect>) -> bool {
    match event {
        WatchEvent::Applied(p) => {
            &&& is_running(p) ==> {
                &&& (effects[1] matches WatchEffect::Gc(GcStatus::Running(q)) && same_pod(*q, p))
                &&& address_failure(p) is None ==> next == (WatchPhase::HealthCheck { snapshot: p })
                &&& address_failure(p) is None ==> (effects[2] matches WatchEffect::StartHealthCheck(a)
                    && a@ == spec_address(p))
            }
            &&& (!is_running(p) && !is_terminated(p) && !is_crashed(p) && is_err_image_pull(p)) ==> (
                effects[1] matches WatchEffect::Deliver(Err(e)) && exists|i: int|
                    first_waiting(p, image_pull_reason(), i)
                    && is_error(e, ErrorKind::ErrImagePull, states_of(p)[i].waiting.unwrap().message))
        },
        _ => true,
    }
}

/// Phase 2 delivers the snapshot when healthy, and the check's own error when not.
pub open spec fn health_payloads(phase: WatchPhase, event: WatchEvent, effects: Seq<WatchEffect>) -> bool {
    match phase {
        WatchPhase::HealthCheck { snapshot } => match event {
            WatchEvent::HealthCheck(HealthOutcome::Healthy) => effects[1] == WatchEffect::Deliver(Ok(snapshot)),
            WatchEvent::HealthCheck(HealthOutcome::Failed(err)) => effects[1] == WatchEffect::Deliver(Err(err)),
            _ => true,
        },
        _ => true,
    }
}

/// A watch stream whose backoff gave up yields `KubernetesUnresponsive` with
/// the time spent failing as its cause.
pub open spec fn unresponsive_payload(event: WatchEvent, effects: Seq<WatchEffect>) -> bool {
    match event {
        WatchEvent::StreamError { retry, elapsed } => !retry ==> exists|i: int| 0 <= i < effects.len()
            && (#[trigger] effects[i] matches WatchEffect::Deliver(Err(e))
            && is_error(e, ErrorKind::KubernetesUnresponsive, Some(elapsed))),
        _ => true,
    }
}

proof fn lemma_signals_add(a: Seq<WatchEffect>, b: Seq<WatchEffect>)
    ensures
        signals_of(a + b) == signals_of(a) + signals_of(b),
{
    assert(signals_of(a + b) =~= signals_of(a) + signals_of(b));
}

fn push_effect(effects: &mut Vec<WatchEffect>, e: WatchEffect)
    ensures
        final(effects)@ == old(effects)@.push(e),
        signals_of(final(effects)@) == signals_of(old(effects)@).push(signal_of(e)),
{
    effects.push(e);
    proof {
        assert(signals_of(final(effects)@) =~= signals_of(old(effects)@).push(signal_of(e)));
    }
}

/// Appends the end of a failure: the error to the client, `Terminated` to the
/// garbage collector, and the pod's deletion.
fn push_terminate(effects: &mut Vec<WatchEffect>, err: AcmError)
    ensures
        final(effects)@ == old(effects)@ + seq![
            WatchEffect::Deliver(Err(err)),
            WatchEffect::Gc(GcStatus::Terminated),
            WatchEffect::DeletePod,
        ],
        signals_of(final(effects)@) == signals_of(old(effects)@) + terminate(err.kind),
{
    push_effect(effects, WatchEffect::Deliver(Err(err)));
    push_effect(effects, WatchEffect::Gc(GcStatus::Terminated));
    push_effect(effects, WatchEffect::DeletePod);
    proof {
        assert(final(effects)@ =~= old(effects)@ + seq![
            WatchEffect::Deliver(Err(err)),
            WatchEffect::Gc(GcStatus::Terminated),
            WatchEffect::DeletePod,
        ]);
        assert(signals_of(final(effects)@) =~= signals_of(old(effects)@) + terminate(err.kind));
    }
}

/// The event watcher of one pod.
pub struct EventWatcher {
    pub pod_id: String,
    pub phase: WatchPhase,
}

impl EventWatcher {
    /// A watcher of the pod named `pod_id`, waiting for it to run.
    pub fn new_watcher(pod_id: String) -> (r: EventWatcher)
        ensures
            r.pod_id == pod_id,
            r.phase is AwaitRunning,
    {
        EventWatcher { pod_id, phase: WatchPhase::AwaitRunning }
    }

    /// Whether the watcher has ended.
    pub fn is_done(&self) -> (r: bool)
        ensures
            r == (self.phase is Done),
    {
        matches!(self.phase, WatchPhase::Done)
    }

    /// The stage of the watcher.
    pub fn stage(&self) -> (r: WatchStage)
        ensures
            r == stage_of(self.phase),
    {
        match &self.phase {
            WatchPhase::AwaitRunning => WatchStage::AwaitRunning,
            WatchPhase::HealthCheck { .. } => WatchStage::HealthCheck,
            WatchPhase::Delivering => WatchStage::Delivering,
            WatchPhase::Steady => WatchStage::Steady,
            WatchPhase::Done => WatchStage::Done,
        }
    }

    /// Whether the watcher waits for `event` now.
    pub fn accepts(&self, event: &WatchEvent) -> (r: bool)
        ensures
            r == watch_accepts(stage_of(self.phase), *event),
    {
        match &self.phase {
            WatchPhase::AwaitRunning | WatchPhase::Steady => !matches!(event,
                WatchEvent::HealthCheck(_) | WatchEvent::GcRefused | WatchEvent::Delivered(_)),
            WatchPhase::HealthCheck { .. } => !matches!(event, WatchEvent::Delivered(_)),
            WatchPhase::Delivering => matches!(event, WatchEvent::Delivered(_)),
            WatchPhase::Done => false,
        }
    }

    /// Observes `event` and returns the watcher's next state with what to do,
    /// in order.
    pub fn step(self, event: WatchEvent) -> (r: (EventWatcher, Vec<WatchEffect>))
        requires
            watch_accepts(stage_of(self.phase), event),
        ensures
            r.0.pod_id == self.pod_id,
            stage_of(r.0.phase) == watch_next(stage_of(self.phase), event).0,
            signals_of(r.1@) == watch_next(stage_of(self.phase), event).1,
            self.phase is AwaitRunning ==> applied_payloads(event, r.0.phase, r.1@),
            health_payloads(self.phase, event, r.1@),
            !(self.phase is Delivering) ==> unresponsive_payload(event, r.1@),
    {
        let mut effects: Vec<WatchEffect> = Vec::new();
        let pod_id = self.pod_id;
        let phase = self.phase;
        let ghost stage = stage_of(phase);
        let ghost ev = event;
        let next = match phase {
            WatchPhase::AwaitRunning => match event {
                WatchEvent::StreamError { retry, elapsed } => {
                    if retry {
                        push_effect(&mut effects, WatchEffect::Sleep);
                        WatchPhase::AwaitRunning
                    } else {
                        let err = AcmError::new(ErrorKind::KubernetesUnresponsive, Some(elapsed));
                        push_terminate(&mut effects, err);
                        assert(effects@[0] == WatchEffect::Deliver(Err(err)));
                        WatchPhase::Done
                    }
                },
                WatchEvent::StreamClosed => {
                    push_effect(&mut effects, WatchEffect::ResetBackoff);
                    push_terminate(&mut effects, AcmError::of(ErrorKind::UnexpectedCloseOfEventStream));
                    WatchPhase::Done
                },
                WatchEvent::Deleted => {
                    push_effect(&mut effects, WatchEffect::ResetBackoff);
                    push_terminate(&mut effects, AcmError::of(ErrorKind::PodDeleted));
                    WatchPhase::Done
                },
                WatchEvent::Applied(p) => {
                    push_effect(&mut effects, WatchEffect::ResetBackoff);
                    if p.running() {
                        push_effect(&mut effects, WatchEffect::Gc(GcStatus::Running(Box::new(p.copy()))));
                        match p.address() {
                            Ok(a) => {
                                push_effect(&mut effects, WatchEffect::StartHealthCheck(a));
                                WatchPhase::HealthCheck { snapshot: p }
                            },
                            Err(e) => {
                                push_terminate(&mut effects, e);
                                WatchPhase::Done
                            },
                        }
                    } else if p.terminated() || p.crashed() {
                        push_terminate(&mut effects, AcmError::of(ErrorKind::PodCrashed));
                        WatchPhase::Done
                    } else if p.was_err_image_pull() {
                        let err = match p.err_image_pull() {
                            Err(e) => e,
                            Ok(()) => AcmError::of(ErrorKind::ErrImagePull),
                        };
                        push_terminate(&mut effects, err);
                        WatchPhase::Done
                    } else {
                        WatchPhase::AwaitRunning
                    }
                },
                _ => {
                    push_effect(&mut effects, WatchEffect::ResetBackoff);
                    WatchPhase::AwaitRunning
                },
            },
            WatchPhase::HealthCheck { snapshot } => match event {
                WatchEvent::StreamError { retry, elapsed } => {
                    if retry {
                        push_effect(&mut effects, WatchEffect::Sleep);
                        WatchPhase::HealthCheck { snapshot }
                    } else {
                        push_effect(&mut effects, WatchEffect::KillHealthCheck);
                        let err = AcmError::new(ErrorKind::KubernetesUnresponsive, Some(elapsed));
                        push_terminate(&mut effects, err);
                        assert(effects@[1] == WatchEffect::Deliver(Err(err)));
                        WatchPhase::Done
                    }
                },
                WatchEvent::StreamClosed => {
                    push_effect(&mut effects, WatchEffect::KillHealthCheck);
                    push_terminate(&mut effects, AcmError::of(ErrorKind::UnexpectedCloseOfEventStream));
                    WatchPhase::Done
                },
                WatchEvent::Deleted => {
                    push_effect(&mut effects, WatchEffect::KillHealthCheck);
                    push_terminate(&mut effects, AcmError::of(ErrorKind::PodDeleted));
                    WatchPhase::Done
                },
                WatchEvent::Restarted => {
                    push_effect(&mut effects, WatchEffect::KillHealthCheck);
                    push_terminate(&mut effects, AcmError::of(ErrorKind::PodRebooted));
                    WatchPhase::Done
                },
                WatchEvent::GcRefused => {
                    push_effect(&mut effects, WatchEffect::KillHealthCheck);
                    push_terminate(&mut effects, AcmError::new(ErrorKind::GarbageCollectorUnresponsive, Some(pod_id.clone())));
                    WatchPhase::Done
                },
                WatchEvent::HealthCheck(HealthOutcome::Dropped) => {
                    push_effect(&mut effects, WatchEffect::JoinHealthCheck);
                    push_terminate(&mut effects, AcmError::of(ErrorKind::HealthCheckDroppedItsChannel));
                    WatchPhase::Done
                },
                WatchEvent::HealthCheck(HealthOutcome::Failed(err)) => {
                    push_effect(&mut effects, WatchEffect::JoinHealthCheck);
                    push_terminate(&mut effects, err);
                    WatchPhase::Done
                },
                WatchEvent::HealthCheck(HealthOutcome::Healthy) => {
                    push_effect(&mut effects, WatchEffect::JoinHealthCheck);
                    push_effect(&mut effects, WatchEffect::Deliver(Ok(snapshot)));
                    WatchPhase::Delivering
                },
                _ => {
                    push_effect(&mut effects, WatchEffect::ResetBackoff);
                    WatchPhase::HealthCheck { snapshot }
                },
            },
            WatchPhase::Delivering => match event {
                WatchEvent::Delivered(true) => WatchPhase::Steady,
                _ => {
                    push_effect(&mut effects, WatchEffect::Gc(GcStatus::Terminated));
                    push_effect(&mut effects, WatchEffect::DeletePod);
                    WatchPhase::Done
                },
            },
            WatchPhase::Steady => match event {
                WatchEvent::StreamError { retry, elapsed } => {
                    if retry {
                        push_effect(&mut effects, WatchEffect::Sleep);
                        WatchPhase::Steady
                    } else {
                        let err = AcmError::new(ErrorKind::KubernetesUnresponsive, Some(elapsed));
                        push_terminate(&mut effects, err);
                        assert(effects@[0] == WatchEffect::Deliver(Err(err)));
                        WatchPhase::Done
                    }
                },
                WatchEvent::StreamClosed => {
                    push_effect(&mut effects, WatchEffect::ResetBackoff);
                    push_terminate(&mut effects, AcmError::of(ErrorKind::UnexpectedCloseOfEventStream));
                    WatchPhase::Done
                },
                WatchEvent::Deleted => {
                    push_effect(&mut effects, WatchEffect::ResetBackoff);
                    push_effect(&mut effects, WatchEffect::Gc(GcStatus::Terminated));
                    WatchPhase::Done
                },
                WatchEvent::Restarted => {
                    push_effect(&mut effects, WatchEffect::ResetBackoff);
                    push_terminate(&mut effects, AcmError::of(ErrorKind::PodRebooted));
                    WatchPhase::Done
                },
                _ => {
                    push_effect(&mut effects, WatchEffect::ResetBackoff);
                    WatchPhase::Steady
                },
            },
            WatchPhase::Done => WatchPhase::Done,
        };
        proof {
            assert(signals_of(effects@) =~= watch_next(stage, ev).1);
        }
        (EventWatcher { pod_id, phase: next }, effects)
    }
}

/// The effects, without their data, of feeding `evs` to a watcher in stage
/// `s`, up to the first event that it does not wait for.
pub open spec fn run(s: WatchStage, evs: Seq<WatchEvent>) -> Seq<Signal>
    decreases evs.len(),
{
    if evs.len() == 0 || !watch_accepts(s, evs[0]) {
        Seq::empty()
    } else {
        watch_next(s, evs[0]).1 + run(watch_next(s, evs[0]).0, evs.drop_first())
    }
}

/// How often `x` occurs in `sigs`.
pub open spec fn count(sigs: Seq<Signal>, x: Signal) -> nat
    decreases sigs.len(),
{
    if sigs.len() == 0 {
        0
    } else {
        (if sigs[0] == x { 1nat } else { 0nat }) + count(sigs.drop_first(), x)
    }
}

/// A signal to the garbage collector.
pub open spec fn is_gc_signal(x: Signal) -> bool {
    x == Signal::GcRunning || x == Signal::GcTerminated
}

/// Nothing reaches the garbage collector after `Terminated`.
pub open spec fn terminated_is_last(sigs: Seq<Signal>) -> bool {
    forall|i: int, j: int| 0 <= i < j < sigs.len() && #[trigger] sigs[i] == Signal::GcTerminated
        ==> !is_gc_signal(#[trigger] sigs[j])
}

proof fn lemma_count_add(a: Seq<Signal>, b: Seq<Signal>, x: Signal)
    ensures
        count(a + b, x) == count(a, x) + count(b, x),
    decreases a.len(),
{
    if a.len() == 0 {
        assert(a + b =~= b);
    } else {
        assert((a + b).drop_first() =~= a.drop_first() + b);
        lemma_count_add(a.drop_first(), b, x);
    }
}

proof fn lemma_count_literal(sigs: Seq<Signal>, x: Signal)
    requires
        sigs.len() <= 5,
    ensures
        count(sigs, x) == (if sigs.len() > 0 && sigs[0] == x { 1nat } else { 0nat })
            + (if sigs.len() > 1 && sigs[1] == x { 1nat } else { 0nat })
            + (if sigs.len() > 2 && sigs[2] == x { 1nat } else { 0nat })
            + (if sigs.len() > 3 && sigs[3] == x { 1nat } else { 0nat })
            + (if sigs.len() > 4 && sigs[4] == x { 1nat } else { 0nat }),
    decreases sigs.len(),
{
    if sigs.len() > 0 {
        lemma_count_literal(sigs.drop_first(), x);
    }
}

/// How many `Running` signals a watcher in stage `s` may still send.
pub open spec fn running_allowance(s: WatchStage) -> nat {
    if s == WatchStage::AwaitRunning { 1 } else { 0 }
}

/// How many `Terminated` signals a watcher in stage `s` may still send.
pub open spec fn terminated_allowance(s: WatchStage) -> nat {
    if s == WatchStage::Done { 0 } else { 1 }
}

proof fn lemma_step_allowances(s: WatchStage, e: WatchEvent)
    requires
        watch_accepts(s, e),
    ensures
        count(watch_next(s, e).1, Signal::GcRunning) + running_allowance(watch_next(s, e).0) <= running_allowance(s),
        count(watch_next(s, e).1, Signal::GcTerminated) + terminated_allowance(watch_next(s, e).0) <= terminated_allowance(s),
        terminated_is_last(watch_next(s, e).1),
        watch_next(s, e).1.contains(Signal::GcTerminated) ==> watch_next(s, e).0 == WatchStage::Done,
{
    let sigs = watch_next(s, e).1;
    lemma_count_literal(sigs, Signal::GcRunning);
    lemma_count_literal(sigs, Signal::GcTerminated);
    if sigs.contains(Signal::GcTerminated) {
        let i = choose|i: int| 0 <= i < sigs.len() && sigs[i] == Signal::GcTerminated;
    }
}

proof fn lemma_run_allowances(s: WatchStage, evs: Seq<WatchEvent>)
    ensures
        count(run(s, evs), Signal::GcRunning) <= running_allowance(s),
        count(run(s, evs), Signal::GcTerminated) <= terminated_allowance(s),
        terminated_is_last(run(s, evs)),
        s == WatchStage::Done ==> run(s, evs).len() == 0,
    decreases evs.len(),
{
    if evs.len() == 0 || !watch_accepts(s, evs[0]) {
    } else {
        let (n, sigs) = watch_next(s, evs[0]);
        let rest = run(n, evs.drop_first());
        lemma_step_allowances(s, evs[0]);
        lemma_run_allowances(n, evs.drop_first());
        lemma_count_add(sigs, rest, Signal::GcRunning);
        lemma_count_add(sigs, rest, Signal::GcTerminated);
        let all = sigs + rest;
        assert forall|i: int, j: int| 0 <= i < j < all.len() && #[trigger] all[i] == Signal::GcTerminated
            implies !is_gc_signal(#[trigger] all[j]) by {
            if i < sigs.len() {
                assert(sigs[i] == Signal::GcTerminated);
                assert(sigs.contains(Signal::GcTerminated));
                assert(rest.len() == 0);
                assert(all[j] == sigs[j]);
            } else {
                assert(rest[i - sigs.len()] == Signal::GcTerminated);
                assert(all[j] == rest[j - sigs.len()]);
            }
        }
    }
}

/// The garbage collector hears at most one `Running` and at most one
/// `Terminated` from a watcher, and nothing after `Terminated`: when both
/// are sent, `Running` comes first.
pub proof fn lemma_gc_signalled_at_most_once(evs: Seq<WatchEvent>)
    ensures
        count(run(WatchStage::AwaitRunning, evs), Signal::GcRunning) <= 1,
        count(run(WatchStage::AwaitRunning, evs), Signal::GcTerminated) <= 1,
        forall|i: int, j: int| 0 <= i < run(WatchStage::AwaitRunning, evs).len()
            && 0 <= j < run(WatchStage::AwaitRunning, evs).len()
            && run(WatchStage::AwaitRunning, evs)[i] == Signal::GcRunning
            && run(WatchStage::AwaitRunning, evs)[j] == Signal::GcTerminated ==> i < j,
{
    lemma_run_allowances(WatchStage::AwaitRunning, evs);
    let sigs = run(WatchStage::AwaitRunning, evs);
    assert forall|i: int, j: int| 0 <= i < sigs.len() && 0 <= j < sigs.len()
        && sigs[i] == Signal::GcRunning && sigs[j] == Signal::GcTerminated implies i < j by {
        if j < i {
            assert(is_gc_signal(sigs[i]));
        }
    }
}

/// Every failure ends the watcher and deletes the pod: whenever a step hands
/// an error to the client, or the healthy pod could not be handed over, the
/// step's last effect is the pod's deletion and the watcher is done.
pub proof fn lemma_failures_delete_pod(s: WatchStage, e: WatchEvent)
    requires
        watch_accepts(s, e),
    ensures
        (exists|i: int| 0 <= i < watch_next(s, e).1.len() && (#[trigger] watch_next(s, e).1[i]) is DeliverErr)
            ==> watch_next(s, e).1.last() == Signal::DeletePod && watch_next(s, e).0 == WatchStage::Done,
        (s == WatchStage::Delivering && e == WatchEvent::Delivered(false))
            ==> watch_next(s, e).1.last() == Signal::DeletePod && watch_next(s, e).0 == WatchStage::Done,
{
}

/// The events after which a healthy pod stays up: anything but a reboot, the
/// end of the stream, or a stream failure that the backoff gave up on.
pub open spec fn benign(e: WatchEvent) -> bool {
    !(e is Restarted) && !(e is StreamClosed)
        && !(e matches WatchEvent::StreamError { retry, .. } && !retry)
}

/// Once the healthy pod reached its client, the watcher never deletes it as
/// long as the stream only brings benign events; the pod is then left to the
/// garbage collector or to an explicit delete.
pub proof fn lemma_no_delete_after_success(evs: Seq<WatchEvent>)
    requires
        forall|i: int| 0 <= i < evs.len() ==> benign(#[trigger] evs[i]),
    ensures
        count(run(WatchStage::Delivering, seq![WatchEvent::Delivered(true)] + evs), Signal::DeletePod) == 0,
{
    let all = seq![WatchEvent::Delivered(true)] + evs;
    assert(all.drop_first() =~= evs);
    lemma_count_add(Seq::empty(), run(WatchStage::Steady, evs), Signal::DeletePod);
    lemma_steady_never_deletes(evs);
}

proof fn lemma_steady_never_deletes(evs: Seq<WatchEvent>)
    requires
        forall|i: int| 0 <= i < evs.len() ==> benign(#[trigger] evs[i]),
    ensures
        count(run(WatchStage::Steady, evs), Signal::DeletePod) == 0,
    decreases evs.len(),
{
    if evs.len() == 0 || !watch_accepts(WatchStage::Steady, evs[0]) {
    } else {
        assert(benign(evs[0]));
        let (n, sigs) = watch_next(WatchStage::Steady, evs[0]);
        lemma_count_literal(sigs, Signal::DeletePod);
        lemma_count_add(sigs, run(n, evs.drop_first()), Signal::DeletePod);
        if n == WatchStage::Steady {
            assert forall|i: int| 0 <= i < evs.drop_first().len() implies benign(#[trigger] evs.drop_first()[i]) by {
                assert(evs.drop_first()[i] == evs[i + 1]);
            }
            lemma_steady_never_deletes(evs.drop_first());
        } else {
            lemma_run_allowances(n, evs.drop_first());
        }
    }
}

} // verus!
