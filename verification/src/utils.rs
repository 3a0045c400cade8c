//! Identifiers, the outside types that a context carries, and the
//! admission-controlled service handle.

use std::sync::Arc;
use vstd::prelude::*;

verus! {

/// A 128-bit identifier, held as the big-endian value of its sixteen bytes.
pub type Id = u128;

pub type UserId = Id;

pub type FlowRunId = Id;

pub type NodeId = Id;

/// A public key of the chain, as `solana_sdk::pubkey::Pubkey` holds it. The
/// context hands it on and never looks inside.
#[verifier::external_type_specification]
#[verifier::external_body]
pub struct ExPubkey(solana_sdk::pubkey::Pubkey);

/// A transaction signature of the chain, as `solana_sdk::signature::Signature`
/// holds it. The context hands it on and never looks inside.
#[verifier::external_type_specification]
#[verifier::external_body]
pub struct ExSignature(solana_sdk::signature::Signature);

/// The error of a conversion that `Signature` offers from a slice of the wrong
/// length. Nothing here makes that conversion; the type is named because the
/// signature's own impls name it.
#[verifier::external_type_specification]
#[verifier::external_body]
pub struct ExTryFromSliceError(core::array::TryFromSliceError);

/// Why signing failed, as `solana_sdk::signature::SignerError` tells it. It is
/// kept for the caller and never looked into.
#[verifier::external_type_specification]
#[verifier::external_body]
pub struct ExSignerError(solana_sdk::signature::SignerError);

/// The bytes of a message, as `bytes::Bytes` holds them. The context hands
/// them on and never looks inside.
#[verifier::external_type_specification]
#[verifier::external_body]
pub struct ExBytes(bytes::Bytes);

/// Why a request did not reach the destination that serves it, as
/// `actix::MailboxError` tells it. It is kept for the caller and never looked
/// into.
#[verifier::external_type_specification]
#[verifier::external_body]
pub struct ExMailboxError(actix::MailboxError);

/// The mark that the sending end of a channel is gone, as
/// `futures::channel::oneshot::Canceled`.
#[verifier::external_type_specification]
#[verifier::external_body]
pub struct ExCanceled(futures::channel::oneshot::Canceled);

/// One more owner of a shared value.
///
/// Trusted: calls `Arc::clone`, which hands back a pointer to the same
/// allocation, so the value behind the result is the value behind `shared`.
#[verifier::external_body]
pub(crate) fn share<T>(shared: &Arc<T>) -> (again: Arc<T>)
    ensures
        again == *shared,
{
    shared.clone()
}

/// The nil identifier.
///
/// Trusted: calls `uuid::Uuid::nil` and reads it with `Uuid::as_u128`. The nil
/// UUID has all of its 128 bits set to zero, so the value read is zero.
#[verifier::external_body]
pub(crate) fn nil_id() -> (id: Id)
    ensures
        id == 0,
{
    uuid::Uuid::nil().as_u128()
}

/// One thing that happens to a handle's admission budget.
#[derive(Clone, Copy, Debug, PartialEq, Eq, Structural)]
pub enum BudgetEvent {
    /// A caller asks for readiness.
    Acquire,
    /// An admitted call has finished.
    Complete,
}

/// What a handler gave back for one call.
#[derive(Debug, PartialEq, Eq)]
pub enum Outcome<Resp, E> {
    /// The handler ran to its end: its response, or its own error.
    Answered(Result<Resp, E>),
    /// The handler broke down before it could answer; this is the cause.
    Failed(String),
}

/// The errors of a service that a handle can stand in front of.
pub trait ServiceError: Sized {
    /// The error that stands for a breakdown of the handler with this cause.
    spec fn worker_error(cause: String) -> Self;

    /// Makes the error that stands for a breakdown of the handler.
    fn from_worker(cause: String) -> (error: Self)
        ensures
            error == Self::worker_error(cause),
    ;

    /// An equal error of its own.
    fn duplicate(&self) -> (copy: Self)
        ensures
            copy == *self,
    ;
}

/// What is to happen with a request that was brought to a handle.
#[derive(Debug, PartialEq, Eq)]
pub enum Dispatch<Req, E> {
    /// The request was admitted: it goes to the handler and is in flight until
    /// the handle is told that the call has finished.
    Forward(Req),
    /// The budget is used up: the request comes back, to be brought again
    /// after a call in flight has finished.
    Wait(Req),
    /// The call fails at once with this error, and nothing reaches a handler.
    Fail(E),
}

/// What the caller of a service gets for what the handler gave back: the
/// handler's own answer as it is, and its breakdown as the service's worker
/// error.
pub open spec fn settled<Resp, E: ServiceError>(outcome: Outcome<Resp, E>) -> Result<Resp, E> {
    match outcome {
        Outcome::Answered(answer) => answer,
        Outcome::Failed(cause) => Err(E::worker_error(cause)),
    }
}

/// A gateway to one service: either a stub that fails every call with a fixed
/// error, or a handler guarded by an admission budget.
///
/// The handle counts the calls that were admitted and have not completed yet.
/// Every clone of a service refers to one such count, so the bound holds across
/// all of them.
#[derive(Debug, PartialEq, Eq)]
pub struct ServiceHandle<E> {
    /// The error of an unimplemented service; `None` where a handler serves.
    pub stub: Option<E>,
    /// The number of calls that may be in flight at once.
    pub bound: usize,
    /// The number of calls admitted and not yet completed.
    pub in_flight: usize,
}

impl<E> ServiceHandle<E> {
    /// The budget is respected, and a stub never holds a call in flight.
    pub open spec fn wf(&self) -> bool {
        &&& self.in_flight <= self.bound
        &&& self.stub is Some ==> self.in_flight == 0
    }

    /// Whether a caller asking for readiness now is let through.
    pub open spec fn admits(&self) -> bool {
        self.stub is Some || self.in_flight < self.bound
    }

    /// The handle after a caller asked for readiness: an admitted call to a
    /// handler takes one unit of the budget, anything else leaves it as it is.
    pub open spec fn after_acquire(self) -> Self {
        if self.stub is None && self.in_flight < self.bound {
            ServiceHandle { in_flight: (self.in_flight + 1) as usize, ..self }
        } else {
            self
        }
    }

    /// What happens with a request brought to the handle as it stands.
    pub open spec fn dispatched<Req>(&self, request: Req) -> Dispatch<Req, E> {
        match self.stub {
            Some(error) => Dispatch::Fail(error),
            None => if self.in_flight < self.bound {
                Dispatch::Forward(request)
            } else {
                Dispatch::Wait(request)
            },
        }
    }

    /// The handle after one admitted call has finished.
    pub open spec fn after_complete(self) -> Self {
        if self.in_flight > 0 {
            ServiceHandle { in_flight: (self.in_flight - 1) as usize, ..self }
        } else {
            self
        }
    }

    /// The handle after one event.
    pub open spec fn after(self, event: BudgetEvent) -> Self {
        match event {
            BudgetEvent::Acquire => self.after_acquire(),
            BudgetEvent::Complete => self.after_complete(),
        }
    }

    /// The handle after a whole history of events, oldest first.
    pub open spec fn after_all(self, events: Seq<BudgetEvent>) -> Self
        decreases events.len(),
    {
        if events.len() == 0 {
            self
        } else {
            self.after_all(events.drop_last()).after(events.last())
        }
    }

    /// A service that is not there: every call fails with `error`.
    pub fn unimplemented(error: E) -> (handle: Self)
        ensures
            handle == (ServiceHandle { stub: Some(error), bound: 0, in_flight: 0 }),
            handle.wf(),
    {
        ServiceHandle { stub: Some(error), bound: 0, in_flight: 0 }
    }

    /// A service backed by a handler, with at most `size` calls in flight.
    pub fn from_service(size: usize) -> (handle: Self)
        ensures
            handle == (ServiceHandle { stub: None::<E>, bound: size, in_flight: 0 }),
            handle.wf(),
    {
        ServiceHandle { stub: None, bound: size, in_flight: 0 }
    }

    /// First phase of a call. Returns `true` where the caller may go on to
    /// `call`, and `false` where the budget is used up and the caller has to
    /// wait for a completion and ask again.
    pub fn acquire_readiness(&mut self) -> (ready: bool)
        ensures
            ready == old(self).admits(),
            *final(self) == old(self).after_acquire(),
            old(self).wf() ==> final(self).wf(),
    {
        if self.stub.is_some() {
            true
        } else if self.in_flight < self.bound {
            self.in_flight = self.in_flight + 1;
            true
        } else {
            false
        }
    }

    /// Second phase of a call, for a caller that `acquire_readiness` has let
    /// through. A stub answers with its configured error and the request goes
    /// nowhere; otherwise the request is handed back for the handler to serve.
    pub fn call<Req>(&self, request: Req) -> (outcome: Result<Req, &E>)
        ensures
            match self.stub {
                Some(error) => outcome == Err::<Req, &E>(&error),
                None => outcome == Ok::<Req, &E>(request),
            },
    {
        match &self.stub {
            Some(error) => Err(error),
            None => Ok(request),
        }
    }

    /// Both phases of a call in one step: asks for readiness and, once let
    /// through, makes the call. A stub fails the call with an error equal to
    /// the one it was set up with; a handler with budget left takes the
    /// request, which then counts as in flight; with the budget used up the
    /// request comes back and the handle stays as it was.
    pub fn dispatch<Req>(&mut self, request: Req) -> (action: Dispatch<Req, E>) where
        E: ServiceError,
        ensures
            action == old(self).dispatched(request),
            *final(self) == old(self).after_acquire(),
            old(self).wf() ==> final(self).wf(),
    {
        if self.acquire_readiness() {
            match self.call(request) {
                Ok(request) => Dispatch::Forward(request),
                Err(error) => Dispatch::Fail(error.duplicate()),
            }
        } else {
            Dispatch::Wait(request)
        }
    }

    /// Records that one admitted call has finished, which frees its unit of the
    /// budget.
    pub fn complete(&mut self)
        ensures
            *final(self) == old(self).after_complete(),
            old(self).wf() ==> final(self).wf(),
    {
        if self.in_flight > 0 {
            self.in_flight = self.in_flight - 1;
        }
    }

    /// Ends an admitted call: frees its unit of the budget and gives the caller
    /// the handler's answer, with a breakdown of the handler turned into the
    /// service's worker error.
    pub fn finish<Resp>(&mut self, outcome: Outcome<Resp, E>) -> (answer: Result<Resp, E>) where
        E: ServiceError,
        ensures
            *final(self) == old(self).after_complete(),
            old(self).wf() ==> final(self).wf(),
            answer == settled(outcome),
    {
        self.complete();
        match outcome {
            Outcome::Answered(answer) => answer,
            Outcome::Failed(cause) => Err(E::from_worker(cause)),
        }
    }

    /// No event breaks the budget: a handle that respects its bound still does
    /// so after the event, and neither its bound nor its stub changes.
    pub proof fn lemma_event_keeps_bound(self, event: BudgetEvent)
        requires
            self.wf(),
        ensures
            self.after(event).wf(),
            self.after(event).bound == self.bound,
            self.after(event).stub == self.stub,
    {
    }

    /// Whatever the history of readiness requests and completions, the number
    /// of calls in flight never exceeds the bound the handle was made with.
    pub proof fn lemma_in_flight_never_exceeds_bound(self, events: Seq<BudgetEvent>)
        requires
            self.wf(),
        ensures
            self.after_all(events).wf(),
            self.after_all(events).in_flight <= self.bound,
            self.after_all(events).bound == self.bound,
            self.after_all(events).stub == self.stub,
        decreases events.len(),
    {
        if events.len() > 0 {
            self.lemma_in_flight_never_exceeds_bound(events.drop_last());
            self.after_all(events.drop_last()).lemma_event_keeps_bound(events.last());
        }
    }

    /// With the budget used up, one more caller is held back, and is let
    /// through as soon as one call in flight has completed.
    pub proof fn lemma_full_handle_waits_for_completion<Req>(self, request: Req)
        requires
            self.wf(),
            self.stub is None,
            self.bound > 0,
            self.in_flight == self.bound,
        ensures
            !self.admits(),
            self.dispatched(request) == Dispatch::<Req, E>::Wait(request),
            self.after_acquire() == self,
            self.after_complete().admits(),
            self.after_complete().dispatched(request) == Dispatch::<Req, E>::Forward(request),
            self.after_complete().after_acquire().in_flight == self.bound,
    {
    }

    /// A handle made for `size` calls at a time lets exactly `size` callers
    /// through before any call has finished: each of the first `size` requests
    /// is forwarded, and the next one has to wait.
    pub proof fn lemma_fresh_handle_admits_up_to_bound<Req>(self, request: Req, asked: nat)
        requires
            self.wf(),
            self.stub is None,
            self.in_flight == 0,
        ensures
            self.after_all(Seq::new(asked, |i: int| BudgetEvent::Acquire)).in_flight == if asked
                <= self.bound {
                asked
            } else {
                self.bound as nat
            },
            self.after_all(Seq::new(asked, |i: int| BudgetEvent::Acquire)).dispatched(request)
                == if asked < self.bound {
                Dispatch::<Req, E>::Forward(request)
            } else {
                Dispatch::<Req, E>::Wait(request)
            },
        decreases asked,
    {
        let events = Seq::new(asked, |i: int| BudgetEvent::Acquire);
        self.lemma_in_flight_never_exceeds_bound(events);
        if asked > 0 {
            let earlier = Seq::new((asked - 1) as nat, |i: int| BudgetEvent::Acquire);
            assert(events.drop_last() =~= earlier);
            self.lemma_fresh_handle_admits_up_to_bound(request, (asked - 1) as nat);
            self.lemma_in_flight_never_exceeds_bound(earlier);
        }
    }

    /// A stub fails every request with the error it was set up with, and
    /// stays as it is.
    pub proof fn lemma_stub_fails_every_call<Req>(self, request: Req)
        requires
            self.stub is Some,
        ensures
            self.dispatched(request) == Dispatch::<Req, E>::Fail(self.stub->Some_0),
            self.after_acquire() == self,
    {
    }

    /// A stub lets every caller through and never counts a call in flight.
    pub proof fn lemma_stub_always_ready(self, events: Seq<BudgetEvent>)
        requires
            self.wf(),
            self.stub is Some,
        ensures
            self.after_all(events) == self,
            self.after_all(events).admits(),
        decreases events.len(),
    {
        if events.len() > 0 {
            self.lemma_stub_always_ready(events.drop_last());
        }
    }
}

} // verus!
