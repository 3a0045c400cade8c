//! Issuing a bearer token for a user.

use crate::text::{contains, contains_seq};
use crate::utils::{share, ServiceError, ServiceHandle, UserId};
use actix::MailboxError;
use std::sync::Arc;
use vstd::prelude::*;
use vstd::string::*;

verus! {

/// Asks for a token of one user.
#[derive(Clone, Copy, Debug, PartialEq, Eq)]
pub struct Request {
    pub user_id: UserId,
}

/// The token that was issued.
#[derive(Debug, PartialEq, Eq)]
pub struct Response {
    pub access_token: String,
}

/// Why no token was issued.
#[derive(Debug, PartialEq, Eq)]
pub enum Error {
    /// Policy denies a token for this user.
    NotAllowed,
    /// No such user.
    UserNotFound,
    /// The issuer answered for another user than the one asked for.
    WrongRecipient,
    /// The handler failed internally.
    Worker(String),
    /// The issuer could not be reached.
    MailBox(Arc<MailboxError>),
    /// The provider reported a failure.
    Supabase { error: String, error_description: String },
    /// Any other failure, with its description.
    Other(String),
}

impl Clone for Error {
    fn clone(&self) -> (copy: Self)
        ensures
            copy == *self,
    {
        match self {
            Error::NotAllowed => Error::NotAllowed,
            Error::UserNotFound => Error::UserNotFound,
            Error::WrongRecipient => Error::WrongRecipient,
            Error::Worker(cause) => Error::Worker(cause.clone()),
            Error::MailBox(cause) => Error::MailBox(share(cause)),
            Error::Supabase { error, error_description } => Error::Supabase {
                error: error.clone(),
                error_description: error_description.clone(),
            },
            Error::Other(cause) => Error::Other(cause.clone()),
        }
    }
}

impl Error {
    /// The error for a failure inside the handler.
    pub fn worker(cause: String) -> (error: Self)
        ensures
            error == Error::Worker(cause),
    {
        Error::Worker(cause)
    }

    /// The error for a failure of no other kind.
    pub fn other(cause: String) -> (error: Self)
        ensures
            error == Error::Other(cause),
    {
        Error::Other(cause)
    }
}

/// A request that did not reach the issuer fails with `MailBox`, which keeps
/// the cause.
impl From<MailboxError> for Error {
    fn from(cause: MailboxError) -> (error: Self) {
        Error::MailBox(Arc::new(cause))
    }
}

impl vstd::std_specs::convert::FromSpecImpl<MailboxError> for Error {
    open spec fn obeys_from_spec() -> bool {
        true
    }

    open spec fn from_spec(cause: MailboxError) -> Self {
        Error::MailBox(Arc::new(cause))
    }
}

impl ServiceError for Error {
    open spec fn worker_error(cause: String) -> Self {
        Error::Worker(cause)
    }

    fn from_worker(cause: String) -> (error: Self) {
        Error::worker(cause)
    }

    fn duplicate(&self) -> (copy: Self) {
        self.clone()
    }
}

pub type Svc = ServiceHandle<Error>;

/// A token service that is not there: every call fails with
/// `Other("unimplemented")`.
pub fn unimplemented_svc() -> (svc: Svc)
    ensures
        svc.wf(),
        svc.bound == 0,
        svc.in_flight == 0,
        svc.stub matches Some(Error::Other(cause)) && cause@ == "unimplemented"@,
{
    Svc::unimplemented(Error::other(String::from_str("unimplemented")))
}

/// A token service that refuses every user: every call fails with
/// `NotAllowed`.
pub fn not_allowed() -> (svc: Svc)
    ensures
        svc.wf(),
        svc.bound == 0,
        svc.in_flight == 0,
        svc.stub == Some(Error::NotAllowed),
{
    Svc::unimplemented(Error::NotAllowed)
}

/// How many more times a failed request may be repeated.
#[derive(Clone, Copy, Debug, PartialEq, Eq)]
pub struct RetryPolicy(pub usize);

impl Default for RetryPolicy {
    fn default() -> (policy: Self)
        ensures
            policy.0 == 1,
    {
        RetryPolicy(1)
    }
}

/// Whether a provider's description speaks of the refresh token.
pub open spec fn mentions_refresh_token(description: Seq<char>) -> bool {
    contains_seq(description, "Refresh Token"@)
}

/// Whether a failure is one that passes when the request is repeated: a
/// failure reported by the provider whose description speaks of the refresh
/// token.
pub open spec fn is_transient(error: Error) -> bool {
    match error {
        Error::Supabase { error, error_description } => mentions_refresh_token(error_description@),
        _ => false,
    }
}

impl RetryPolicy {
    /// The decision on an outcome: the policy for the next attempt, or `None`
    /// where the outcome is final.
    pub open spec fn decide(self, outcome: Result<Response, Error>) -> Option<RetryPolicy> {
        match outcome {
            Err(error) if is_transient(error) && self.0 > 0 => Some(
                RetryPolicy((self.0 - 1) as usize),
            ),
            _ => None,
        }
    }

    /// How many attempts are made in all when every attempt fails with `error`.
    pub open spec fn attempts(self, error: Error) -> nat
        decreases self.0,
    {
        match self.decide(Err(error)) {
            Some(next) if next.0 < self.0 => 1 + next.attempts(error),
            _ => 1,
        }
    }

    /// Decides whether the request is sent again. It is, with one attempt less
    /// to spare, where the provider reported a failure that speaks of the
    /// refresh token and an attempt is left. Every other outcome is final.
    pub fn retry(&self, request: &Request, result: Result<&Response, &Error>) -> (next: Option<
        RetryPolicy,
    >)
        ensures
            next == self.decide(
                match result {
                    Ok(response) => Ok(*response),
                    Err(error) => Err(*error),
                },
            ),
            next matches Some(policy) ==> policy.0 + 1 == self.0,
    {
        match result {
            Err(Error::Supabase { error, error_description }) => {
                if contains(error_description.as_str(), "Refresh Token") && self.0 > 0 {
                    Some(RetryPolicy(self.0 - 1))
                } else {
                    None
                }
            },
            _ => None,
        }
    }

    /// The request to send again: the one that failed, unchanged.
    pub fn clone_request(&self, request: &Request) -> (again: Option<Request>)
        ensures
            again == Some(*request),
    {
        Some(*request)
    }

    /// A failure that speaks of the refresh token is retried as many times as
    /// the policy allows and then returned: when every attempt fails so, the
    /// attempts number one more than the policy's count.
    pub proof fn lemma_transient_failure_retried_to_the_end(self, error: Error)
        requires
            is_transient(error),
        ensures
            self.attempts(error) == self.0 + 1,
        decreases self.0,
    {
        if self.0 > 0 {
            RetryPolicy((self.0 - 1) as usize).lemma_transient_failure_retried_to_the_end(error);
        }
    }

    /// Any other failure is never retried, whatever the policy's count.
    pub proof fn lemma_other_failure_never_retried(self, error: Error)
        requires
            !is_transient(error),
        ensures
            self.decide(Err(error)) is None,
            self.attempts(error) == 1,
    {
    }

    /// A success is never retried.
    pub proof fn lemma_success_never_retried(self, response: Response)
        ensures
            self.decide(Ok(response)) is None,
    {
    }

    /// A policy with nothing left retries nothing.
    pub proof fn lemma_spent_policy_never_retries(self, outcome: Result<Response, Error>)
        requires
            self.0 == 0,
        ensures
            self.decide(outcome) is None,
    {
    }
}

/// The value of an authorization header that carries `token`.
pub open spec fn bearer(token: Seq<char>) -> Seq<char> {
    "Bearer "@ + token
}

/// Turns the service's answer into the value of an authorization header:
/// `Bearer`, one space, and the token. A failure is handed on as it is.
pub fn bearer_header(outcome: Result<Response, Error>) -> (header: Result<String, Error>)
    ensures
        match outcome {
            Ok(response) => header matches Ok(text) && text@ == bearer(response.access_token@),
            Err(error) => header == Err::<String, Error>(error),
        },
{
    match outcome {
        Ok(response) => Ok(String::from_str("Bearer ").concat(response.access_token.as_str())),
        Err(error) => Err(error),
    }
}

} // verus!
