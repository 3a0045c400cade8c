use flow_lib::context::{execute, get_jwt, signer};
use actix::MailboxError;
use flow_lib::utils::{Dispatch, Outcome, ServiceHandle};
use futures::channel::oneshot::Canceled;
use solana_sdk::signature::SignerError;
use std::sync::Arc;

#[test]
fn unimplemented_handle_fails_every_call_with_its_error() {
    let handle: ServiceHandle<get_jwt::Error> = ServiceHandle::unimplemented(get_jwt::Error::NotAllowed);
    for request in [0u32, 1, 7, u32::MAX] {
        assert_eq!(handle.call(request), Err(&get_jwt::Error::NotAllowed));
    }
    assert_eq!(handle.call("any request"), Err(&get_jwt::Error::NotAllowed));
}

#[test]
fn unimplemented_handle_is_always_ready_and_unchanged() {
    let mut handle: ServiceHandle<u8> = ServiceHandle::unimplemented(9);
    for _ in 0..5 {
        assert!(handle.acquire_readiness());
        assert_eq!(handle.call(1u8), Err(&9));
        handle.complete();
    }
    assert_eq!(handle, ServiceHandle { stub: Some(9), bound: 0, in_flight: 0 });
}

#[test]
fn handler_receives_the_request_unchanged() {
    let mut handle: ServiceHandle<u8> = ServiceHandle::from_service(2);
    assert!(handle.acquire_readiness());
    assert_eq!(handle.call(vec![1u8, 2, 3]), Ok(vec![1u8, 2, 3]));
}

#[test]
fn second_caller_waits_for_the_first_to_complete() {
    let mut handle: ServiceHandle<u8> = ServiceHandle::from_service(1);
    assert!(handle.acquire_readiness());
    assert_eq!(handle.in_flight, 1);
    assert!(!handle.acquire_readiness());
    assert!(!handle.acquire_readiness());
    assert_eq!(handle.in_flight, 1);
    handle.complete();
    assert_eq!(handle.in_flight, 0);
    assert!(handle.acquire_readiness());
    assert_eq!(handle.in_flight, 1);
}

#[test]
fn in_flight_never_exceeds_the_bound() {
    let mut handle: ServiceHandle<u8> = ServiceHandle::from_service(3);
    let mut admitted = 0;
    for round in 0..40u32 {
        if round % 5 == 4 {
            handle.complete();
        } else if handle.acquire_readiness() {
            admitted += 1;
        }
        assert!(handle.in_flight <= 3);
        assert_eq!(handle.bound, 3);
    }
    assert_eq!(admitted, 3 + 7);
}

#[test]
fn zero_bound_admits_nobody() {
    let mut handle: ServiceHandle<u8> = ServiceHandle::from_service(0);
    assert!(!handle.acquire_readiness());
    handle.complete();
    assert!(!handle.acquire_readiness());
    assert_eq!(handle.in_flight, 0);
}

#[test]
fn complete_on_idle_handle_changes_nothing() {
    let mut handle: ServiceHandle<u8> = ServiceHandle::from_service(4);
    handle.complete();
    assert_eq!(handle, ServiceHandle { stub: None, bound: 4, in_flight: 0 });
}

#[test]
fn finish_frees_the_budget_and_passes_the_answer_on() {
    let mut handle: execute::Svc = execute::simple(1);
    assert!(handle.acquire_readiness());
    let answer: Result<u8, execute::Error> = handle.finish(Outcome::Answered(Ok(5)));
    assert_eq!(answer, Ok(5));
    assert_eq!(handle.in_flight, 0);
    assert!(handle.acquire_readiness());
    let answer: Result<u8, execute::Error> =
        handle.finish(Outcome::Answered(Err(execute::Error::TxSimFailed)));
    assert_eq!(answer, Err(execute::Error::TxSimFailed));
    assert_eq!(handle.in_flight, 0);
}

#[test]
fn finish_turns_a_breakdown_into_the_worker_error() {
    let mut tokens: get_jwt::Svc = ServiceHandle::from_service(1);
    assert!(tokens.acquire_readiness());
    let answer: Result<u8, get_jwt::Error> = tokens.finish(Outcome::Failed("boom".to_owned()));
    assert_eq!(answer, Err(get_jwt::Error::Worker("boom".to_owned())));

    let mut signers: signer::Svc = ServiceHandle::from_service(1);
    assert!(signers.acquire_readiness());
    let answer: Result<u8, signer::Error> = signers.finish(Outcome::Failed("boom".to_owned()));
    assert_eq!(answer, Err(signer::Error::Worker("boom".to_owned())));

    let mut executors: execute::Svc = ServiceHandle::from_service(1);
    assert!(executors.acquire_readiness());
    let answer: Result<u8, execute::Error> = executors.finish(Outcome::Failed("boom".to_owned()));
    assert_eq!(answer, Err(execute::Error::Worker("boom".to_owned())));
    assert_eq!(executors.in_flight, 0);
}

#[test]
fn stubs_carry_their_configured_errors() {
    assert_eq!(get_jwt::unimplemented_svc().stub, Some(get_jwt::Error::Other("unimplemented".to_owned())));
    assert_eq!(get_jwt::not_allowed().stub, Some(get_jwt::Error::NotAllowed));
    assert_eq!(signer::unimplemented_svc().stub, Some(signer::Error::Other("unimplemented".to_owned())));
    assert_eq!(execute::unimplemented_svc().stub, Some(execute::Error::Other("unimplemented".to_owned())));
    assert_eq!(execute::simple(7), ServiceHandle { stub: None, bound: 7, in_flight: 0 });
}

#[test]
fn error_constructors_pick_their_variant() {
    assert_eq!(get_jwt::Error::worker("w".to_owned()), get_jwt::Error::Worker("w".to_owned()));
    assert_eq!(get_jwt::Error::other("o".to_owned()), get_jwt::Error::Other("o".to_owned()));
    assert_eq!(get_jwt::Error::from(MailboxError::Closed), get_jwt::Error::MailBox(Arc::new(MailboxError::Closed)));
    assert_ne!(get_jwt::Error::from(MailboxError::Timeout), get_jwt::Error::MailBox(Arc::new(MailboxError::Closed)));
    assert_eq!(signer::Error::worker("w".to_owned()), signer::Error::Worker("w".to_owned()));
    assert_eq!(signer::Error::other("o".to_owned()), signer::Error::Other("o".to_owned()));
    assert_eq!(signer::Error::from(MailboxError::Timeout), signer::Error::MailBox(MailboxError::Timeout));
    assert_eq!(execute::Error::worker("w".to_owned()), execute::Error::Worker("w".to_owned()));
    assert_eq!(execute::Error::other("o".to_owned()), execute::Error::Other("o".to_owned()));
    assert_eq!(execute::Error::from_client("c".to_owned()), execute::Error::Solana("c".to_owned()));
    assert_eq!(
        execute::Error::from(SignerError::Custom("s".to_owned())),
        execute::Error::Signer(Arc::new(SignerError::Custom("s".to_owned())))
    );
    assert_eq!(execute::Error::from(Canceled), execute::Error::ChannelClosed(Canceled));
    assert_eq!(execute::Error::from(MailboxError::Closed), execute::Error::MailBox(MailboxError::Closed));
}

#[test]
fn errors_clone_to_equal_values() {
    let all = vec![
        execute::Error::Canceled,
        execute::Error::NotAvailable,
        execute::Error::TxIncomplete,
        execute::Error::Timeout,
        execute::Error::InsufficientSolanaBalance { needed: 5000, balance: 12 },
        execute::Error::TxSimFailed,
        execute::Error::Solana("rpc".to_owned()),
        execute::Error::Signer(Arc::new(SignerError::NotEnoughSigners)),
        execute::Error::Worker("w".to_owned()),
        execute::Error::MailBox(MailboxError::Timeout),
        execute::Error::ChannelClosed(Canceled),
        execute::Error::Other("o".to_owned()),
    ];
    for error in &all {
        assert_eq!(&error.clone(), error);
    }
    let tokens = vec![
        get_jwt::Error::NotAllowed,
        get_jwt::Error::UserNotFound,
        get_jwt::Error::WrongRecipient,
        get_jwt::Error::Worker("w".to_owned()),
        get_jwt::Error::MailBox(Arc::new(MailboxError::Closed)),
        get_jwt::Error::Supabase { error: "e".to_owned(), error_description: "d".to_owned() },
        get_jwt::Error::Other("o".to_owned()),
    ];
    for error in &tokens {
        assert_eq!(&error.clone(), error);
    }
    let signers = vec![
        signer::Error::Pubkey("key".to_owned()),
        signer::Error::User,
        signer::Error::Timeout,
        signer::Error::Worker("w".to_owned()),
        signer::Error::MailBox(MailboxError::Closed),
        signer::Error::Other("o".to_owned()),
    ];
    for error in &signers {
        assert_eq!(&error.clone(), error);
    }
}

#[test]
fn wrapped_failure_is_unwrapped_or_described() {
    assert_eq!(
        execute::Error::from_wrapped(Some(execute::Error::TxIncomplete), "ignored".to_owned()),
        execute::Error::TxIncomplete
    );
    assert_eq!(
        execute::Error::from_wrapped(None, "disk full".to_owned()),
        execute::Error::Other("disk full".to_owned())
    );
}

#[test]
fn dispatch_forwards_waits_or_fails() {
    let mut handle: execute::Svc = execute::simple(2);
    assert_eq!(handle.dispatch(1u8), Dispatch::Forward(1u8));
    assert_eq!(handle.dispatch(2u8), Dispatch::Forward(2u8));
    assert_eq!(handle.dispatch(3u8), Dispatch::Wait(3u8));
    assert_eq!(handle.in_flight, 2);
    handle.complete();
    assert_eq!(handle.dispatch(3u8), Dispatch::Forward(3u8));
    assert_eq!(handle.dispatch(4u8), Dispatch::Wait(4u8));

    let mut stub: execute::Svc = ServiceHandle::unimplemented(execute::Error::Canceled);
    for request in 0..10u8 {
        assert_eq!(stub.dispatch(request), Dispatch::Fail(execute::Error::Canceled));
    }
    assert_eq!(stub, ServiceHandle { stub: Some(execute::Error::Canceled), bound: 0, in_flight: 0 });
}

#[test]
fn services_have_budgets_of_their_own() {
    let mut tokens: get_jwt::Svc = ServiceHandle::from_service(1);
    let mut signers: signer::Svc = ServiceHandle::from_service(1);
    assert_eq!(tokens.dispatch(1u8), Dispatch::Forward(1u8));
    assert_eq!(signers.dispatch(1u8), Dispatch::Forward(1u8));
    assert_eq!(tokens.dispatch(2u8), Dispatch::Wait(2u8));
    signers.complete();
    assert_eq!(tokens.dispatch(2u8), Dispatch::Wait(2u8));
    assert_eq!(signers.dispatch(2u8), Dispatch::Forward(2u8));
}
