use std::sync::Arc;

use roblox_session::client::{ClientUserInformation, RobloxApi};
use roblox_session::error::RobloxError;
use roblox_session::retry::{Attempt, Step};
use roblox_session::users::user_information_from_response;
use roblox_session::validation::{validate_request_result, RawResponse};
use roblox_session::economy::robux_from_response;

fn response(status: u16, body: &str) -> Result<RawResponse, String> {
    Ok(RawResponse { status, xcsrf: None, body: body.as_bytes().to_vec() })
}

/// Runs an operation through the retry protocol, recording the token that
/// each sending used.
fn run<T>(
    api: &mut RobloxApi,
    mut op: impl FnMut(&str) -> Result<T, RobloxError>,
) -> (Result<T, RobloxError>, Vec<String>) {
    let mut seen = Vec::new();
    let mut attempt = Attempt::First;
    loop {
        let token = api.xcsrf();
        seen.push(token.clone());
        let result = op(&token);
        match api.after_attempt(attempt, result) {
            Step::Again => attempt = Attempt::Retry,
            Step::Done(r) => return (r, seen),
        }
    }
}

#[test]
fn new_session_is_empty() {
    let api = RobloxApi::new();
    assert_eq!(api.xcsrf(), "");
    assert!(!api.is_authenticated());
    assert_eq!(api.user_information(), None);
    assert_eq!(api.cookie_string().err(), Some(RobloxError::RoblosecurityNotSet));
    assert_eq!(api.user_id(), Err(RobloxError::InvalidRoblosecurity));
    assert_eq!(api.username(), Err(RobloxError::InvalidRoblosecurity));
    assert_eq!(api.display_name(), Err(RobloxError::InvalidRoblosecurity));
}

#[test]
fn token_is_offered_only_once_obtained() {
    let mut api = RobloxApi::new();
    assert_eq!(api.xcsrf_if_any(), None);
    api.set_xcsrf("tok".to_string());
    assert_eq!(api.xcsrf_if_any(), Some("tok".to_string()));
}

#[test]
fn cookie_header_carries_the_secret_and_is_sensitive() {
    let mut api = RobloxApi::new();
    assert_eq!(api.set_cookie("abc".to_string()), Ok(()));
    let header = api.cookie_string().unwrap();
    assert_eq!(header.to_str().unwrap(), ".ROBLOSECURITY=abc");
    assert!(header.is_sensitive());
}

#[test]
fn secret_that_cannot_be_a_header_is_refused() {
    let mut api = RobloxApi::new();
    assert_eq!(api.set_cookie("bad\nsecret".to_string()), Err(RobloxError::InvalidRoblosecurity));
    assert!(!api.is_authenticated());
    assert_eq!(api.set_cookie("tab\tis fine".to_string()), Ok(()));
    assert!(api.is_authenticated());
    assert_eq!(api.set_cookie("del\u{7f}".to_string()), Err(RobloxError::InvalidRoblosecurity));
    assert!(!api.is_authenticated());
}

#[test]
fn bootstrap_fills_identity_from_lookup() {
    let mut api = RobloxApi::new();
    api.set_cookie("secret".to_string()).unwrap();
    let lookup = user_information_from_response(response(
        200,
        "{\"id\":123,\"name\":\"abc\",\"displayName\":\"Abc\"}",
    ));
    assert_eq!(api.finish_set_cookie(lookup), Ok(()));
    let expected = ClientUserInformation {
        user_id: 123,
        username: "abc".to_string(),
        display_name: "Abc".to_string(),
    };
    assert_eq!(api.user_information(), Some(expected));
    assert_eq!(api.user_id(), Ok(123));
    assert_eq!(api.username(), Ok("abc".to_string()));
    assert_eq!(api.display_name(), Ok("Abc".to_string()));
    assert!(api.is_authenticated());
}

#[test]
fn failed_bootstrap_rolls_back_the_secret() {
    let mut api = RobloxApi::new();
    api.set_cookie("secret".to_string()).unwrap();
    let body = "{\"errors\":[{\"code\":0,\"message\":\"Authorization has been denied\"}]}";
    let lookup = user_information_from_response(response(401, body));
    assert_eq!(api.finish_set_cookie(lookup), Err(RobloxError::InvalidRoblosecurity));
    assert!(!api.is_authenticated());
    assert_eq!(api.user_information(), None);
    assert_eq!(api.cookie_string().err(), Some(RobloxError::RoblosecurityNotSet));
}

#[test]
fn replacing_the_secret_drops_the_old_identity() {
    let mut api = RobloxApi::new();
    api.set_cookie("one".to_string()).unwrap();
    api.finish_set_cookie(Ok(ClientUserInformation {
        user_id: 1,
        username: "a".to_string(),
        display_name: "A".to_string(),
    }))
    .unwrap();
    api.set_cookie("two".to_string()).unwrap();
    assert_eq!(api.user_information(), None);
}

#[test]
fn retry_installs_the_new_token_and_calls_twice() {
    let mut api = RobloxApi::new();
    api.set_xcsrf("T1".to_string());
    let mut calls = 0;
    let (result, seen) = run(&mut api, |token| {
        calls += 1;
        if token == "T2" {
            Ok(7u64)
        } else {
            Err(RobloxError::InvalidXcsrf("T2".to_string()))
        }
    });
    assert_eq!(result, Ok(7));
    assert_eq!(calls, 2);
    assert_eq!(seen, vec!["T1".to_string(), "T2".to_string()]);
    assert_eq!(api.xcsrf(), "T2");
}

#[test]
fn stale_token_forever_is_tried_exactly_twice() {
    let mut api = RobloxApi::new();
    let mut calls = 0;
    let (result, _) = run(&mut api, |_| -> Result<(), RobloxError> {
        calls += 1;
        Err(RobloxError::InvalidXcsrf(format!("T{}", calls)))
    });
    assert_eq!(calls, 2);
    assert_eq!(result, Err(RobloxError::InvalidXcsrf("T2".to_string())));
    assert_eq!(api.xcsrf(), "T1");
}

#[test]
fn other_failures_are_not_retried() {
    let mut api = RobloxApi::new();
    let mut calls = 0;
    let (result, _) = run(&mut api, |_| -> Result<(), RobloxError> {
        calls += 1;
        Err(RobloxError::TooManyRequests)
    });
    assert_eq!(calls, 1);
    assert_eq!(result, Err(RobloxError::TooManyRequests));
    assert!(matches!(
        api.after_attempt(Attempt::Retry, Err::<u8, RobloxError>(RobloxError::InvalidXcsrf("x".to_string()))),
        Step::Done(Err(RobloxError::InvalidXcsrf(_)))
    ));
}

#[test]
fn stale_token_then_robux_returns_balance() {
    let mut api = RobloxApi::new();
    api.set_cookie("secret".to_string()).unwrap();
    let mut answers = vec![
        Ok(RawResponse {
            status: 200,
            xcsrf: None,
            body: b"{\"robux\": 500}".to_vec(),
        }),
        Ok(RawResponse {
            status: 403,
            xcsrf: Some("newtok".to_string()),
            body: Vec::new(),
        }),
    ];
    let (result, seen) = run(&mut api, |_| robux_from_response(answers.pop().unwrap()));
    assert_eq!(result, Ok(500));
    assert_eq!(seen.len(), 2);
    assert_eq!(seen[1], "newtok");
    assert_eq!(api.xcsrf(), "newtok");
}

#[test]
fn concurrent_callers_all_succeed_with_one_retry_each() {
    let runtime = tokio::runtime::Builder::new_current_thread().build().unwrap();
    let api = Arc::new(tokio::sync::RwLock::new(RobloxApi::new()));
    let calls: Vec<usize> = runtime.block_on(async {
        let mut handles = Vec::new();
        for _ in 0..16 {
            let api = api.clone();
            handles.push(tokio::spawn(async move {
                let mut calls = 0usize;
                let mut attempt = Attempt::First;
                loop {
                    let token = api.read().await.xcsrf();
                    tokio::task::yield_now().await;
                    calls += 1;
                    let answer = validate_request_result(if token == "fresh" {
                        Ok(RawResponse { status: 200, xcsrf: None, body: vec![] })
                    } else {
                        Ok(RawResponse {
                            status: 403,
                            xcsrf: Some("fresh".to_string()),
                                            body: vec![],
                        })
                    });
                    let step = api.write().await.after_attempt(attempt, answer);
                    match step {
                        Step::Again => attempt = Attempt::Retry,
                        Step::Done(r) => {
                            assert!(r.is_ok());
                            return calls;
                        }
                    }
                }
            }));
        }
        let mut out = Vec::new();
        for h in handles {
            out.push(h.await.unwrap());
        }
        out
    });
    assert_eq!(calls.len(), 16);
    assert!(calls.iter().all(|&c| c >= 1 && c <= 2));
}

#[test]
fn challenge_in_body_ends_the_call_after_one_send() {
    let mut api = RobloxApi::new();
    api.set_cookie("secret".to_string()).unwrap();
    api.set_xcsrf("x0".to_string());
    let mut calls = 0;
    let (result, _) = run(&mut api, |_| {
        calls += 1;
        validate_request_result(Ok(RawResponse {
            status: 403,
            xcsrf: None,
            body: b"{\"challengeId\":\"c-1\"}".to_vec(),
        }))
        .map(|_| ())
    });
    assert_eq!(calls, 1);
    assert_eq!(result, Err(RobloxError::ChallengeRequired("c-1".to_string())));
    assert_eq!(api.xcsrf(), "x0");
}

#[test]
fn fresh_token_wins_over_a_challenge_in_the_body() {
    let mut api = RobloxApi::new();
    api.set_cookie("secret".to_string()).unwrap();
    let mut answers = vec![
        Ok(RawResponse { status: 200, xcsrf: None, body: Vec::new() }),
        Ok(RawResponse {
            status: 403,
            xcsrf: Some("t".to_string()),
            body: b"{\"challengeId\":\"c-1\"}".to_vec(),
        }),
    ];
    let (result, seen) = run(&mut api, |_| validate_request_result(answers.pop().unwrap()).map(|_| ()));
    assert_eq!(result, Ok(()));
    assert_eq!(seen.len(), 2);
    assert_eq!(seen[1], "t");
}
