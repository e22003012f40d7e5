use roblox_session::error::RobloxError;
use roblox_session::json::{parse_i64, parse_u64, Json};
use roblox_session::validation::{
    challenge_id, classify_status, error_entry, response_json, validate_request_result, RawResponse,
};

fn response(status: u16, body: &str) -> Result<RawResponse, String> {
    Ok(RawResponse { status, xcsrf: None, body: body.as_bytes().to_vec() })
}

fn forbidden(xcsrf: Option<&str>, body: &str) -> Result<RawResponse, String> {
    Ok(RawResponse {
        status: 403,
        xcsrf: xcsrf.map(|s| s.to_string()),
        body: body.as_bytes().to_vec(),
    })
}

#[test]
fn status_200_hands_back_the_body() {
    assert_eq!(validate_request_result(response(200, "{\"a\":1}")), Ok(b"{\"a\":1}".to_vec()));
}

#[test]
fn status_429_is_rate_limited() {
    assert_eq!(validate_request_result(response(429, "slow down")), Err(RobloxError::TooManyRequests));
}

#[test]
fn status_500_is_server_fault() {
    assert_eq!(validate_request_result(response(500, "")), Err(RobloxError::InternalServerError));
}

#[test]
fn status_400_without_error_object_is_bad_request() {
    assert_eq!(validate_request_result(response(400, "not json")), Err(RobloxError::BadRequest));
    assert_eq!(validate_request_result(response(400, "{\"errors\":[]}")), Err(RobloxError::BadRequest));
}

#[test]
fn status_400_with_error_object_keeps_code_and_message() {
    let body = "{\"errors\":[{\"code\":7,\"message\":\"Bad thing\"}]}";
    assert_eq!(
        validate_request_result(response(400, body)),
        Err(RobloxError::UnknownRobloxErrorCode { code: 7, message: "Bad thing".to_string() })
    );
}

#[test]
fn status_401_code_zero_is_unauthenticated() {
    let body = "{\"errors\":[{\"code\":0,\"message\":\"Authorization has been denied\"}]}";
    assert_eq!(validate_request_result(response(401, body)), Err(RobloxError::InvalidRoblosecurity));
}

#[test]
fn status_401_other_code_is_unknown_auth_code() {
    let body = "{\"errors\":[{\"code\":12,\"message\":\"Other\"},{\"code\":0,\"message\":\"x\"}]}";
    assert_eq!(
        validate_request_result(response(401, body)),
        Err(RobloxError::UnknownRobloxErrorCode { code: 12, message: "Other".to_string() })
    );
}

#[test]
fn status_401_unreadable_body_is_unauthenticated() {
    assert_eq!(validate_request_result(response(401, "<html>")), Err(RobloxError::InvalidRoblosecurity));
    let too_big = "{\"errors\":[{\"code\":70000,\"message\":\"m\"}]}";
    assert_eq!(validate_request_result(response(401, too_big)), Err(RobloxError::InvalidRoblosecurity));
}

#[test]
fn status_403_with_token_is_stale_token() {
    assert_eq!(
        validate_request_result(forbidden(Some("T2"), "{\"challengeId\":\"c1\"}")),
        Err(RobloxError::InvalidXcsrf("T2".to_string()))
    );
}

#[test]
fn status_403_with_challenge_in_body_is_challenge_required() {
    let body = "{\"errors\":[{\"code\":0,\"message\":\"Challenge is required\"}],\"challengeId\":\"chal-9\"}";
    assert_eq!(
        validate_request_result(forbidden(None, body)),
        Err(RobloxError::ChallengeRequired("chal-9".to_string()))
    );
    assert_eq!(
        validate_request_result(forbidden(Some(""), body)),
        Err(RobloxError::ChallengeRequired("chal-9".to_string()))
    );
}

#[test]
fn status_403_with_neither_is_unknown_format() {
    assert_eq!(validate_request_result(forbidden(None, "{}")), Err(RobloxError::UnknownStatus403Format));
    assert_eq!(validate_request_result(forbidden(None, "<html>")), Err(RobloxError::UnknownStatus403Format));
    assert_eq!(
        validate_request_result(forbidden(None, "{\"challengeId\":7}")),
        Err(RobloxError::UnknownStatus403Format)
    );
}

#[test]
fn status_403_with_empty_token_and_no_challenge_is_unknown_format() {
    assert_eq!(validate_request_result(forbidden(Some(""), "{}")), Err(RobloxError::UnknownStatus403Format));
}

#[test]
fn other_status_is_unmapped() {
    assert_eq!(validate_request_result(response(404, "")), Err(RobloxError::UnidentifiedStatusCode(404)));
    assert_eq!(validate_request_result(response(302, "")), Err(RobloxError::UnidentifiedStatusCode(302)));
}

#[test]
fn transport_failure_keeps_its_cause() {
    assert_eq!(
        validate_request_result(Err("connection reset".to_string())),
        Err(RobloxError::ReqwestError("connection reset".to_string()))
    );
}

#[test]
fn classifying_twice_gives_the_same_outcome() {
    let cases: Vec<(u16, &str)> = vec![
        (200, "{}"),
        (400, "{\"errors\":[{\"code\":3,\"message\":\"m\"}]}"),
        (401, "garbage"),
        (429, ""),
        (500, ""),
        (418, ""),
    ];
    for (status, body) in cases {
        let a = validate_request_result(response(status, body));
        let b = validate_request_result(response(status, body));
        assert_eq!(a, b);
    }
    let a = validate_request_result(forbidden(None, "{\"challengeId\":\"c\"}"));
    let b = validate_request_result(forbidden(None, "{\"challengeId\":\"c\"}"));
    assert_eq!(a, b);
}

#[test]
fn classify_status_uses_the_given_entry() {
    assert_eq!(
        classify_status(401, None, Some((0, "x".to_string())), None),
        Err(RobloxError::InvalidRoblosecurity)
    );
    assert_eq!(
        classify_status(400, None, Some((5, "y".to_string())), None),
        Err(RobloxError::UnknownRobloxErrorCode { code: 5, message: "y".to_string() })
    );
    assert_eq!(classify_status(200, None, None, None), Ok(()));
    assert_eq!(
        classify_status(403, None, None, Some("c".to_string())),
        Err(RobloxError::ChallengeRequired("c".to_string()))
    );
    assert_eq!(
        classify_status(403, Some("t".to_string()), None, Some("c".to_string())),
        Err(RobloxError::InvalidXcsrf("t".to_string()))
    );
}

#[test]
fn error_entry_reads_the_first_error() {
    let parsed = Some(Json::Object(vec![(
        "errors".to_string(),
        Json::Array(vec![Json::Object(vec![
            ("code".to_string(), Json::Number("4".to_string())),
            ("message".to_string(), Json::Str("four".to_string())),
        ])]),
    )]));
    assert_eq!(error_entry(&parsed), Some((4, "four".to_string())));
    assert_eq!(error_entry(&None), None);
    assert_eq!(error_entry(&Some(Json::Null)), None);
}

#[test]
fn challenge_id_reads_the_body_field() {
    let parsed = Some(Json::Object(vec![("challengeId".to_string(), Json::Str("z".to_string()))]));
    assert_eq!(challenge_id(&parsed), Some("z".to_string()));
    assert_eq!(challenge_id(&None), None);
}

#[test]
fn response_json_reads_the_body() {
    let j = response_json(response(200, "{\"x\":[true,null,\"s\",12]}")).unwrap();
    assert_eq!(
        j,
        Json::Object(vec![(
            "x".to_string(),
            Json::Array(vec![
                Json::Bool(true),
                Json::Null,
                Json::Str("s".to_string()),
                Json::Number("12".to_string()),
            ]),
        )])
    );
    assert_eq!(response_json(response(200, "{broken")), Err(RobloxError::MalformedResponse));
}

#[test]
fn decimal_numbers_are_read_exactly() {
    assert_eq!(parse_u64("0"), Some(0));
    assert_eq!(parse_u64("18446744073709551615"), Some(u64::MAX));
    assert_eq!(parse_u64("18446744073709551616"), None);
    assert_eq!(parse_u64(""), None);
    assert_eq!(parse_u64("-1"), None);
    assert_eq!(parse_u64("1.5"), None);
    assert_eq!(parse_i64("-9223372036854775808"), Some(i64::MIN));
    assert_eq!(parse_i64("9223372036854775807"), Some(i64::MAX));
    assert_eq!(parse_i64("9223372036854775808"), None);
    assert_eq!(parse_i64("-42"), Some(-42));
}

#[test]
fn retryable_errors_are_rate_limit_and_server_fault() {
    assert!(RobloxError::TooManyRequests.is_retryable());
    assert!(RobloxError::InternalServerError.is_retryable());
    assert!(!RobloxError::BadRequest.is_retryable());
    assert!(!RobloxError::InvalidRoblosecurity.is_retryable());
}
