//! The decisions of the server health check: when to wait, when to try a
//! connection and with how much patience, and what to report.
use vstd::prelude::*;
use crate::error::{AcmError, ErrorKind, is_error};

verus! {

/// The longest the health check polls a pod's gRPC server, in milliseconds.
pub const MAXIMUM_POLLING_TIME_MS: u64 = 30000;

/// How long a connection attempt may take when `elapsed_ms` of the budget are
/// spent: the rest of the budget, or nothing once it is spent.
pub open spec fn patience_for(elapsed_ms: u64) -> u64 {
    if elapsed_ms <= MAXIMUM_POLLING_TIME_MS {
        (MAXIMUM_POLLING_TIME_MS - elapsed_ms) as u64
    } else {
        0
    }
}

/// Where the health check stands.
#[derive(Clone, Copy, Debug, PartialEq, Eq, Structural)]
pub enum CheckStage {
    /// It needs the next interval of its backoff.
    AwaitBackoff,
    /// It sleeps for one interval.
    Sleeping,
    /// A connection attempt is under way.
    Connecting,
    /// It has reported or was cancelled.
    Done,
}

/// What the health check observes.
pub enum CheckEvent {
    /// The next interval of the backoff in milliseconds, or `None` once the
    /// backoff gave up.
    Backoff(Option<u64>),
    /// The interval has passed.
    Slept,
    /// The gRPC health endpoint answered.
    Connected,
    /// The connection failed, with the transport error's text.
    ConnectFailed(String),
    /// The connection attempt outlived its patience.
    PatienceExpired,
    /// The event watcher asked the check to stop.
    Cancelled,
}

/// What the health check asks of its surroundings.
pub enum CheckAction {
    /// Ask the backoff for its next interval.
    NextBackoff,
    /// Sleep for so many milliseconds, unless cancelled.
    Sleep(u64),
    /// Try to connect, giving up after so many milliseconds.
    Connect(u64),
    /// Send the verdict to the event watcher and stop.
    Report(Result<(), AcmError>),
    /// Stop without a verdict.
    Stop,
}

/// The events that the check waits for at each stage.
pub open spec fn check_accepts(s: CheckStage, e: CheckEvent) -> bool {
    match s {
        CheckStage::AwaitBackoff => e is Backoff,
        CheckStage::Sleeping => e is Slept || e is Cancelled,
        CheckStage::Connecting => e is Connected || e is ConnectFailed || e is PatienceExpired || e is Cancelled,
        CheckStage::Done => false,
    }
}

/// The stage after `e`.
pub open spec fn check_next(s: CheckStage, e: CheckEvent) -> CheckStage {
    match e {
        CheckEvent::Backoff(Some(_)) => CheckStage::Sleeping,
        CheckEvent::Slept => CheckStage::Connecting,
        CheckEvent::ConnectFailed(_) => CheckStage::AwaitBackoff,
        _ => CheckStage::Done,
    }
}

/// The health check of one pod's gRPC server.
pub struct ServerCheck {
    pub uri: String,
    pub last_error: Option<String>,
    pub stage: CheckStage,
}

impl ServerCheck {
    /// A health check of the server at `uri`, about to ask for its first interval.
    pub fn new(uri: String) -> (r: ServerCheck)
        ensures
            r.uri == uri,
            r.last_error is None,
            r.stage == CheckStage::AwaitBackoff,
    {
        ServerCheck { uri, last_error: None, stage: CheckStage::AwaitBackoff }
    }

    /// How long a connection attempt may take once `elapsed_ms` have passed
    /// since the first attempt.
    pub fn patience(elapsed_ms: u64) -> (r: u64)
        ensures
            r == patience_for(elapsed_ms),
            elapsed_ms <= MAXIMUM_POLLING_TIME_MS ==> elapsed_ms + r == MAXIMUM_POLLING_TIME_MS,
            elapsed_ms > MAXIMUM_POLLING_TIME_MS ==> r == 0,
    {
        if elapsed_ms <= MAXIMUM_POLLING_TIME_MS {
            MAXIMUM_POLLING_TIME_MS - elapsed_ms
        } else {
            0
        }
    }

    /// Observes `event`, `elapsed_ms` after the first attempt, and says what to do.
    ///
    /// A backoff that gave up reports `TooManyFailures` with the last transport
    /// error; an interval is slept; after it, a connection is tried with the
    /// rest of the budget as patience. A connection reports `Ok`; a failed one
    /// is recorded and the backoff asked again; expired patience reports
    /// `NotReady`; cancellation stops without a report.
    pub fn step(&mut self, event: CheckEvent, elapsed_ms: u64) -> (r: CheckAction)
        requires
            check_accepts(old(self).stage, event),
        ensures
            final(self).uri == old(self).uri,
            final(self).stage == check_next(old(self).stage, event),
            event matches CheckEvent::ConnectFailed(t) ==> final(self).last_error == Some(t) && r is NextBackoff,
            !(event is ConnectFailed) ==> final(self).last_error == old(self).last_error,
            event == CheckEvent::Backoff(None) ==> (r matches CheckAction::Report(Err(e))
                && is_error(e, ErrorKind::TooManyFailures, old(self).last_error)),
            event matches CheckEvent::Backoff(Some(d)) ==> r == CheckAction::Sleep(d),
            event is Slept ==> r == CheckAction::Connect(patience_for(elapsed_ms)),
            event is Connected ==> r matches CheckAction::Report(Ok(())),
            event is PatienceExpired ==> (r matches CheckAction::Report(Err(e)) && is_error(e, ErrorKind::NotReady, None)),
            event is Cancelled ==> r is Stop,
    {
        match event {
            CheckEvent::Backoff(None) => {
                self.stage = CheckStage::Done;
                let cause = match &self.last_error {
                    Some(t) => Some(t.clone()),
                    None => None,
                };
                CheckAction::Report(Err(AcmError::new(ErrorKind::TooManyFailures, cause)))
            },
            CheckEvent::Backoff(Some(d)) => {
                self.stage = CheckStage::Sleeping;
                CheckAction::Sleep(d)
            },
            CheckEvent::Slept => {
                self.stage = CheckStage::Connecting;
                CheckAction::Connect(ServerCheck::patience(elapsed_ms))
            },
            CheckEvent::Connected => {
                self.stage = CheckStage::Done;
                CheckAction::Report(Ok(()))
            },
            CheckEvent::ConnectFailed(t) => {
                self.stage = CheckStage::AwaitBackoff;
                self.last_error = Some(t);
                CheckAction::NextBackoff
            },
            CheckEvent::PatienceExpired => {
                self.stage = CheckStage::Done;
                CheckAction::Report(Err(AcmError::of(ErrorKind::NotReady)))
            },
            CheckEvent::Cancelled => {
                self.stage = CheckStage::Done;
                CheckAction::Stop
            },
        }
    }
}

/// No connection attempt outlives the polling budget: one started at any
/// moment within the budget ends, at the latest, when the budget does, and
/// one started after it gets no time at all.
pub proof fn lemma_attempt_within_budget(elapsed_ms: u64)
    ensures
        elapsed_ms <= MAXIMUM_POLLING_TIME_MS ==> elapsed_ms + patience_for(elapsed_ms) == MAXIMUM_POLLING_TIME_MS,
        elapsed_ms > MAXIMUM_POLLING_TIME_MS ==> patience_for(elapsed_ms) == 0,
{
}

} // verus!
