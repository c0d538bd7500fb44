//! The client's side of the one-shot rendezvous with the event watcher: the
//! first verdict is handed out once and remembered for every later wait.
use vstd::prelude::*;
use crate::error::{AcmError, ErrorKind, is_error};
use crate::pod::{Pod, same_pod};

verus! {

/// How long the verdict waits for a client, in seconds, before it is dropped.
pub const HANDLE_PATIENCE_SECS: u64 = 60;

/// What a handle remembers of the verdict it handed out.
pub enum Memo {
    /// No verdict was handed out yet.
    Empty,
    /// The pod became healthy.
    Healthy(Pod),
    /// The verdict was an error, which was consumed.
    Failed,
}

/// What a first verdict leaves behind: the healthy pod, or the mark of an
/// error (a missing verdict counts as an error).
pub open spec fn memo_agrees(m: Memo, received: Option<Result<Pod, AcmError>>) -> bool {
    match received {
        Some(Ok(p)) => m matches Memo::Healthy(q) && same_pod(q, p),
        _ => m is Failed,
    }
}

/// The verdict that the rendezvous passes on: the watcher's, or
/// `InboundResultChannelDropped` when the watcher sent none.
pub fn shim_verdict(inbound: Option<Result<Pod, AcmError>>) -> (r: Result<Pod, AcmError>)
    ensures
        inbound matches Some(v) ==> r == v,
        inbound is None ==> (r matches Err(e) && is_error(e, ErrorKind::InboundResultChannelDropped, None)),
{
    match inbound {
        Some(v) => v,
        None => Err(AcmError::of(ErrorKind::InboundResultChannelDropped)),
    }
}

/// The client's end of the rendezvous.
pub struct PodManagerUpperHandle {
    pub phantom: Memo,
}

impl PodManagerUpperHandle {
    /// A handle that has handed out nothing yet.
    pub fn new() -> (r: PodManagerUpperHandle)
        ensures
            r.phantom is Empty,
    {
        PodManagerUpperHandle { phantom: Memo::Empty }
    }

    /// The answer of a wait that comes after the first: the healthy pod again,
    /// or `PhantomError` after an error; `None` before any verdict.
    pub fn cached(&self) -> (r: Option<Result<Pod, AcmError>>)
        ensures
            self.phantom is Empty <==> r is None,
            self.phantom matches Memo::Healthy(p) ==> (r matches Some(Ok(q)) && same_pod(q, p)),
            self.phantom is Failed ==> (r matches Some(Err(e)) && is_error(e, ErrorKind::PhantomError, None)),
    {
        match &self.phantom {
            Memo::Empty => None,
            Memo::Healthy(p) => Some(Ok(p.copy())),
            Memo::Failed => Some(Err(AcmError::of(ErrorKind::PhantomError))),
        }
    }

    /// Hands out the first verdict (`None` when the rendezvous closed without
    /// one) and remembers it.
    pub fn record(&mut self, received: Option<Result<Pod, AcmError>>) -> (r: Result<Pod, AcmError>)
        requires
            old(self).phantom is Empty,
        ensures
            memo_agrees(final(self).phantom, received),
            received matches Some(v) ==> r == v,
            received is None ==> (r matches Err(e) && is_error(e, ErrorKind::InboundResultChannelDropped, None)),
    {
        let result = shim_verdict(received);
        match &result {
            Ok(p) => {
                self.phantom = Memo::Healthy(p.copy());
            },
            Err(_) => {
                self.phantom = Memo::Failed;
            },
        }
        result
    }
}

/// Waiting yields one verdict only. After the first one is given to the
/// client, each further wait gives the same healthy pod again, or
/// `PhantomError` if the first verdict was an error.
pub proof fn lemma_later_waits_repeat_the_first(m: Memo, received: Option<Result<Pod, AcmError>>)
    requires
        memo_agrees(m, received),
    ensures
        !(m is Empty),
        received matches Some(Ok(p)) ==> (m matches Memo::Healthy(q) && same_pod(q, p)),
        !(received matches Some(Ok(_))) ==> m is Failed,
{
}

} // verus!
