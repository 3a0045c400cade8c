use flow_lib::context::get_jwt::{bearer_header, Error, Request, Response, RetryPolicy};
use flow_lib::text::contains;

fn provider_failure(description: &str) -> Error {
    Error::Supabase { error: "invalid_grant".to_owned(), error_description: description.to_owned() }
}

fn retries_until_final(start: RetryPolicy, error: &Error) -> usize {
    let request = Request { user_id: 42 };
    let mut policy = start;
    let mut retries = 0;
    while let Some(next) = policy.retry(&request, Err(error)) {
        assert_eq!(next.0 + 1, policy.0);
        policy = next;
        retries += 1;
        assert!(retries <= 1000);
    }
    retries
}

#[test]
fn refresh_token_failure_is_retried_exactly_n_times() {
    let error = provider_failure("Invalid Refresh Token: Already Used");
    for n in [0usize, 1, 2, 3, 10] {
        assert_eq!(retries_until_final(RetryPolicy(n), &error), n);
    }
}

#[test]
fn retry_decrements_the_budget_by_one() {
    let error = provider_failure("Refresh Token Not Found");
    let request = Request { user_id: 1 };
    assert_eq!(RetryPolicy(3).retry(&request, Err(&error)), Some(RetryPolicy(2)));
    assert_eq!(RetryPolicy(1).retry(&request, Err(&error)), Some(RetryPolicy(0)));
    assert_eq!(RetryPolicy(0).retry(&request, Err(&error)), None);
}

#[test]
fn failure_without_the_marker_is_never_retried() {
    let request = Request { user_id: 1 };
    let errors = vec![
        provider_failure("Invalid login credentials"),
        provider_failure("refresh token expired"),
        provider_failure("RefreshToken"),
        provider_failure(""),
        Error::Supabase { error: "Refresh Token".to_owned(), error_description: "other".to_owned() },
        Error::NotAllowed,
        Error::UserNotFound,
        Error::WrongRecipient,
        Error::Worker("Refresh Token".to_owned()),
        Error::Other("Refresh Token".to_owned()),
        Error::from(actix::MailboxError::Closed),
        Error::from(actix::MailboxError::Timeout),
    ];
    for n in 0..5usize {
        for error in &errors {
            assert_eq!(RetryPolicy(n).retry(&request, Err(error)), None);
        }
    }
}

#[test]
fn success_is_never_retried() {
    let request = Request { user_id: 1 };
    let response = Response { access_token: "Refresh Token".to_owned() };
    assert_eq!(RetryPolicy(5).retry(&request, Ok(&response)), None);
}

#[test]
fn default_policy_allows_one_retry() {
    assert_eq!(RetryPolicy::default(), RetryPolicy(1));
    let error = provider_failure("Invalid Refresh Token");
    assert_eq!(retries_until_final(RetryPolicy::default(), &error), 1);
}

#[test]
fn retried_request_is_the_same_request() {
    let request = Request { user_id: 0xdead_beef };
    assert_eq!(RetryPolicy(2).clone_request(&request), Some(request));
}

#[test]
fn bearer_header_is_prefix_space_token() {
    let header = bearer_header(Ok(Response { access_token: "abc.def.ghi".to_owned() }));
    assert_eq!(header, Ok("Bearer abc.def.ghi".to_owned()));
    let empty = bearer_header(Ok(Response { access_token: String::new() }));
    assert_eq!(empty, Ok("Bearer ".to_owned()));
}

#[test]
fn bearer_header_hands_the_error_on() {
    assert_eq!(bearer_header(Err(Error::NotAllowed)), Err(Error::NotAllowed));
    let failure = provider_failure("Invalid Refresh Token");
    assert_eq!(bearer_header(Err(failure.clone())), Err(failure));
}

#[test]
fn contains_finds_runs_of_characters() {
    assert!(contains("Invalid Refresh Token", "Refresh Token"));
    assert!(contains("Refresh Token", "Refresh Token"));
    assert!(contains("Refresh Token: used", "Refresh Token"));
    assert!(contains("xxRefresh Tokenxx", "Refresh Token"));
    assert!(!contains("Refresh Toke", "Refresh Token"));
    assert!(!contains("Refresh  Token", "Refresh Token"));
    assert!(!contains("", "Refresh Token"));
    assert!(contains("", ""));
    assert!(contains("abc", ""));
    assert!(contains("aab", "ab"));
    assert!(!contains("aba", "bb"));
    assert!(contains("jeton é Refresh Token ü", "Refresh Token"));
    assert!(contains("héllo", "éll"));
    assert!(!contains("hello", "éll"));
}
