//! Turning instructions and node outputs into a submitted transaction.

use crate::utils::{share, ServiceError, ServiceHandle};
use actix::MailboxError;
use futures::channel::oneshot::Canceled;
use solana_sdk::signature::Signature;
use solana_sdk::signature::SignerError;
use std::sync::Arc;
use vstd::prelude::*;
use vstd::string::*;

verus! {

/// The instructions to run as one transaction, in order, and the values the
/// node has produced. Neither is looked into here.
#[derive(Debug, PartialEq, Eq)]
pub struct Request<I, O> {
    pub instructions: I,
    pub output: O,
}

/// The signature of the submitted transaction; `None` where the instructions
/// gave no transaction.
#[derive(Clone, Copy, Debug, PartialEq, Eq)]
pub struct Response {
    pub signature: Option<Signature>,
}

/// Why the instructions were not executed.
#[derive(Debug, PartialEq, Eq)]
pub enum Error {
    /// The caller gave up.
    Canceled,
    /// The context has nothing to execute with.
    NotAvailable,
    /// A node that takes part did not supply its instructions.
    TxIncomplete,
    /// The execution took too long.
    Timeout,
    /// The payer holds less than the transaction needs.
    InsufficientSolanaBalance { needed: u64, balance: u64 },
    /// The simulation before submission rejected the transaction.
    TxSimFailed,
    /// The chain client failed; this is its diagnostic in full.
    Solana(String),
    /// Signing failed.
    Signer(Arc<SignerError>),
    /// The handler failed internally.
    Worker(String),
    /// The executor could not be reached.
    MailBox(MailboxError),
    /// The channel for the answer was closed before the answer came.
    ChannelClosed(Canceled),
    /// Any other failure, with its description.
    Other(String),
}

impl Clone for Error {
    fn clone(&self) -> (copy: Self)
        ensures
            copy == *self,
    {
        match self {
            Error::Canceled => Error::Canceled,
            Error::NotAvailable => Error::NotAvailable,
            Error::TxIncomplete => Error::TxIncomplete,
            Error::Timeout => Error::Timeout,
            Error::InsufficientSolanaBalance { needed, balance } => {
                Error::InsufficientSolanaBalance { needed: *needed, balance: *balance }
            },
            Error::TxSimFailed => Error::TxSimFailed,
            Error::Solana(diagnostic) => Error::Solana(diagnostic.clone()),
            Error::Signer(cause) => Error::Signer(share(cause)),
            Error::Worker(cause) => Error::Worker(cause.clone()),
            Error::MailBox(cause) => Error::MailBox(*cause),
            Error::ChannelClosed(mark) => Error::ChannelClosed(*mark),
            Error::Other(cause) => Error::Other(cause.clone()),
        }
    }
}

impl Error {
    /// The error for a failure inside the handler.
    pub fn worker(cause: String) -> (error: Self)
        ensures
            error == Error::Worker(cause),
    {
        Error::Worker(cause)
    }

    /// The error for a failure of no other kind.
    pub fn other(cause: String) -> (error: Self)
        ensures
            error == Error::Other(cause),
    {
        Error::Other(cause)
    }

    /// The error for a failure of the chain client, from its diagnostic.
    pub fn from_client(diagnostic: String) -> (error: Self)
        ensures
            error == Error::Solana(diagnostic),
    {
        Error::Solana(diagnostic)
    }

    /// The error behind a failure of unknown kind: the execution error it
    /// wraps where it wraps one, else `Other` with the failure's description.
    pub fn from_wrapped(wrapped: Option<Error>, description: String) -> (error: Self)
        ensures
            error == match wrapped {
                Some(inner) => inner,
                None => Error::Other(description),
            },
    {
        match wrapped {
            Some(inner) => inner,
            None => Error::other(description),
        }
    }
}

/// A failure to sign becomes `Signer`, which keeps the cause.
impl From<SignerError> for Error {
    fn from(cause: SignerError) -> (error: Self) {
        Error::Signer(Arc::new(cause))
    }
}

impl vstd::std_specs::convert::FromSpecImpl<SignerError> for Error {
    open spec fn obeys_from_spec() -> bool {
        true
    }

    open spec fn from_spec(cause: SignerError) -> Self {
        Error::Signer(Arc::new(cause))
    }
}

/// A request that did not reach the executor fails with `MailBox`, which
/// keeps the cause.
impl From<MailboxError> for Error {
    fn from(cause: MailboxError) -> (error: Self) {
        Error::MailBox(cause)
    }
}

impl vstd::std_specs::convert::FromSpecImpl<MailboxError> for Error {
    open spec fn obeys_from_spec() -> bool {
        true
    }

    open spec fn from_spec(cause: MailboxError) -> Self {
        Error::MailBox(cause)
    }
}

/// An answer that will not come any more becomes `ChannelClosed`.
impl From<Canceled> for Error {
    fn from(mark: Canceled) -> (error: Self) {
        Error::ChannelClosed(mark)
    }
}

impl vstd::std_specs::convert::FromSpecImpl<Canceled> for Error {
    open spec fn obeys_from_spec() -> bool {
        true
    }

    open spec fn from_spec(mark: Canceled) -> Self {
        Error::ChannelClosed(mark)
    }
}

impl ServiceError for Error {
    open spec fn worker_error(cause: String) -> Self {
        Error::Worker(cause)
    }

    fn from_worker(cause: String) -> (error: Self) {
        Error::worker(cause)
    }

    fn duplicate(&self) -> (copy: Self) {
        self.clone()
    }
}

pub type Svc = ServiceHandle<Error>;

/// An executor that is not there: every call fails with
/// `Other("unimplemented")`.
pub fn unimplemented_svc() -> (svc: Svc)
    ensures
        svc.wf(),
        svc.bound == 0,
        svc.in_flight == 0,
        svc.stub matches Some(Error::Other(cause)) && cause@ == "unimplemented"@,
{
    Svc::unimplemented(Error::other(String::from_str("unimplemented")))
}

/// The plain executor: each call builds the transaction from the request's
/// instructions, has it signed, submits it and answers with its signature. At
/// most `size` calls are in flight at once.
pub fn simple(size: usize) -> (svc: Svc)
    ensures
        svc.wf(),
        svc.stub is None,
        svc.bound == size,
        svc.in_flight == 0,
{
    Svc::from_service(size)
}

/// The plain executor's answer, from what the submission gave: the signature
/// of the transaction, or the failure as it is.
pub fn simple_response(submitted: Result<Signature, Error>) -> (answer: Result<Response, Error>)
    ensures
        match submitted {
            Ok(signature) => answer == Ok::<Response, Error>(
                Response { signature: Some(signature) },
            ),
            Err(error) => answer == Err::<Response, Error>(error),
        },
{
    match submitted {
        Ok(signature) => Ok(Response { signature: Some(signature) }),
        Err(error) => Err(error),
    }
}

} // verus!
