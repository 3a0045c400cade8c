//! Asking the holder of a key for a signature.

use crate::utils::{ServiceError, ServiceHandle};
use actix::MailboxError;
use bytes::Bytes;
use solana_sdk::pubkey::Pubkey;
use solana_sdk::signature::Signature;
use std::time::Duration;
use vstd::prelude::*;
use vstd::string::*;

verus! {

/// Why no signature was given.
#[derive(Debug, PartialEq, Eq)]
pub enum Error {
    /// The signer does not control the key, given here in text.
    Pubkey(String),
    /// The user who asks may not sign with this key.
    User,
    /// No answer came within the time allowed.
    Timeout,
    /// The handler failed internally.
    Worker(String),
    /// The signer could not be reached.
    MailBox(MailboxError),
    /// Any other failure, with its description.
    Other(String),
}

impl Clone for Error {
    fn clone(&self) -> (copy: Self)
        ensures
            copy == *self,
    {
        match self {
            Error::Pubkey(key) => Error::Pubkey(key.clone()),
            Error::User => Error::User,
            Error::Timeout => Error::Timeout,
            Error::Worker(cause) => Error::Worker(cause.clone()),
            Error::MailBox(cause) => Error::MailBox(*cause),
            Error::Other(cause) => Error::Other(cause.clone()),
        }
    }
}

impl Error {
    /// The error for a failure inside the handler.
    pub fn worker(cause: String) -> (error: Self)
        ensures
            error == Error::Worker(cause),
    {
        Error::Worker(cause)
    }

    /// The error for a failure of no other kind.
    pub fn other(cause: String) -> (error: Self)
        ensures
            error == Error::Other(cause),
    {
        Error::Other(cause)
    }
}

/// A request that did not reach the signer fails with `MailBox`, which keeps
/// the cause.
impl From<MailboxError> for Error {
    fn from(cause: MailboxError) -> (error: Self) {
        Error::MailBox(cause)
    }
}

impl vstd::std_specs::convert::FromSpecImpl<MailboxError> for Error {
    open spec fn obeys_from_spec() -> bool {
        true
    }

    open spec fn from_spec(cause: MailboxError) -> Self {
        Error::MailBox(cause)
    }
}

impl ServiceError for Error {
    open spec fn worker_error(cause: String) -> Self {
        Error::Worker(cause)
    }

    fn from_worker(cause: String) -> (error: Self) {
        Error::worker(cause)
    }

    fn duplicate(&self) -> (copy: Self) {
        self.clone()
    }
}

pub type Svc = ServiceHandle<Error>;

/// What is to be signed, with which key, and how long the signer may take.
#[derive(Debug, PartialEq, Eq)]
pub struct SignatureRequest {
    pub pubkey: Pubkey,
    pub message: Bytes,
    pub timeout: Duration,
}

/// The signature that was given.
#[derive(Debug, PartialEq, Eq)]
pub struct SignatureResponse {
    pub signature: Signature,
}

/// A signer that is not there: every call fails with `Other("unimplemented")`.
pub fn unimplemented_svc() -> (svc: Svc)
    ensures
        svc.wf(),
        svc.bound == 0,
        svc.in_flight == 0,
        svc.stub matches Some(Error::Other(cause)) && cause@ == "unimplemented"@,
{
    Svc::unimplemented(Error::other(String::from_str("unimplemented")))
}

/// Takes the signature out of the signer's answer. A failure is handed on as
/// it is; nothing is tried a second time.
pub fn signature_of(outcome: Result<SignatureResponse, Error>) -> (signature: Result<
    Signature,
    Error,
>)
    ensures
        match outcome {
            Ok(response) => signature == Ok::<Signature, Error>(response.signature),
            Err(error) => signature == Err::<Signature, Error>(error),
        },
{
    match outcome {
        Ok(response) => Ok(response.signature),
        Err(error) => Err(error),
    }
}

} // verus!
