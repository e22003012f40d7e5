//! Classification of a completed exchange into a body or a typed failure.
use vstd::prelude::*;

use crate::error::RobloxError;
use crate::json::{
    decode_each, field, field_str, field_u64, json_of, parse_json, spec_field, spec_field_str,
    spec_field_u64, Json,
};

verus! {

/// What the transport hands back from one exchange: the status, the
/// anti-forgery token response header, and the body.
#[derive(Debug, Clone)]
pub struct RawResponse {
    pub status: u16,
    /// The `x-csrf-token` response header, if present.
    pub xcsrf: Option<String>,
    pub body: Vec<u8>,
}

/// The challenge that a 403 body `{"challengeId": .., ..}` asks for, if it
/// names one.
pub open spec fn spec_challenge_id(parsed: Option<Json>) -> Option<String> {
    match parsed {
        Some(j) => spec_field_str(j, "challengeId"@),
        None => None,
    }
}

/// Reads the challenge id of a 403 body.
pub fn challenge_id(parsed: &Option<Json>) -> (r: Option<String>)
    ensures
        r == spec_challenge_id(*parsed),
{
    match parsed {
        Some(j) => field_str(j, "challengeId"),
        None => None,
    }
}

/// The first entry of a Roblox error body
/// `{"errors": [{"code": .., "message": ..}, ..]}`, if it has that shape and
/// the code fits a `u16`.
pub open spec fn spec_error_entry(parsed: Option<Json>) -> Option<(u16, String)> {
    match parsed {
        Some(j) => match spec_field(j, "errors"@) {
            Some(Json::Array(items)) => if items@.len() > 0 {
                match (spec_field_u64(items@[0], "code"@), spec_field_str(items@[0], "message"@)) {
                    (Some(c), Some(m)) => if c <= u16::MAX {
                        Some((c as u16, m))
                    } else {
                        None
                    },
                    _ => None,
                }
            } else {
                None
            },
            _ => None,
        },
        None => None,
    }
}

/// Reads the first entry of a Roblox error body.
pub fn error_entry(parsed: &Option<Json>) -> (r: Option<(u16, String)>)
    ensures
        r == spec_error_entry(*parsed),
{
    match parsed {
        Some(j) => match field(j, "errors") {
            Some(Json::Array(items)) => {
                if items.len() == 0 {
                    return None;
                }
                let code = field_u64(&items[0], "code");
                let message = field_str(&items[0], "message");
                match (code, message) {
                    (Some(c), Some(m)) => if c <= 65535 {
                        Some((c as u16, m))
                    } else {
                        None
                    },
                    _ => None,
                }
            },
            _ => None,
        },
        None => None,
    }
}

/// The outcome for a status, the token header, the first entry of an error
/// body and the challenge id of a 403 body, in the order: 200, 429, 500,
/// 400, 401, 403, anything else. On a 403 a fresh token comes first; an
/// empty token header counts as none.
pub open spec fn status_outcome(
    status: u16,
    xcsrf: Option<String>,
    entry: Option<(u16, String)>,
    challenge_id: Option<String>,
) -> Result<(), RobloxError> {
    if status == 200 {
        Ok(())
    } else if status == 429 {
        Err(RobloxError::TooManyRequests)
    } else if status == 500 {
        Err(RobloxError::InternalServerError)
    } else if status == 400 {
        match entry {
            Some((c, m)) => Err(RobloxError::UnknownRobloxErrorCode { code: c, message: m }),
            None => Err(RobloxError::BadRequest),
        }
    } else if status == 401 {
        match entry {
            Some((c, m)) => if c == 0 {
                Err(RobloxError::InvalidRoblosecurity)
            } else {
                Err(RobloxError::UnknownRobloxErrorCode { code: c, message: m })
            },
            None => Err(RobloxError::InvalidRoblosecurity),
        }
    } else if status == 403 {
        match (xcsrf, challenge_id) {
            (Some(t), _) if t@.len() > 0 => Err(RobloxError::InvalidXcsrf(t)),
            (_, Some(c)) => Err(RobloxError::ChallengeRequired(c)),
            (_, None) => Err(RobloxError::UnknownStatus403Format),
        }
    } else {
        Err(RobloxError::UnidentifiedStatusCode(status))
    }
}

/// Classifies a status, given the token header, the first entry of an
/// error body and the challenge id of a 403 body.
pub fn classify_status(
    status: u16,
    xcsrf: Option<String>,
    entry: Option<(u16, String)>,
    challenge_id: Option<String>,
) -> (r: Result<(), RobloxError>)
    ensures
        r == status_outcome(status, xcsrf, entry, challenge_id),
{
    if status == 200 {
        Ok(())
    } else if status == 429 {
        Err(RobloxError::TooManyRequests)
    } else if status == 500 {
        Err(RobloxError::InternalServerError)
    } else if status == 400 {
        match entry {
            Some((c, m)) => Err(RobloxError::UnknownRobloxErrorCode { code: c, message: m }),
            None => Err(RobloxError::BadRequest),
        }
    } else if status == 401 {
        match entry {
            Some((c, m)) => if c == 0 {
                Err(RobloxError::InvalidRoblosecurity)
            } else {
                Err(RobloxError::UnknownRobloxErrorCode { code: c, message: m })
            },
            None => Err(RobloxError::InvalidRoblosecurity),
        }
    } else if status == 403 {
        match (xcsrf, challenge_id) {
            (Some(t), _) if t.as_str().unicode_len() > 0 => Err(RobloxError::InvalidXcsrf(t)),
            (_, Some(c)) => Err(RobloxError::ChallengeRequired(c)),
            (_, None) => Err(RobloxError::UnknownStatus403Format),
        }
    } else {
        Err(RobloxError::UnidentifiedStatusCode(status))
    }
}

/// The outcome of one exchange, given what serde_json reads from its body:
/// the body itself on status 200, else the failure.
pub open spec fn spec_validate(
    request_result: Result<RawResponse, String>,
    parsed: Option<Json>,
) -> Result<Vec<u8>, RobloxError> {
    match request_result {
        Err(cause) => Err(RobloxError::ReqwestError(cause)),
        Ok(resp) => match status_outcome(
            resp.status,
            resp.xcsrf,
            spec_error_entry(parsed),
            spec_challenge_id(parsed),
        ) {
            Ok(()) => Ok(resp.body),
            Err(e) => Err(e),
        },
    }
}

/// What serde_json reads from the body of an exchange that arrived.
pub open spec fn parsed_body(request_result: Result<RawResponse, String>) -> Option<Json> {
    match request_result {
        Ok(resp) => json_of(resp.body@),
        Err(_) => None,
    }
}

/// Classifies a completed exchange: the body on status 200, else exactly one
/// failure. Only a 400, 401 or 403 body is read.
pub fn validate_request_result(request_result: Result<RawResponse, String>) -> (r: Result<
    Vec<u8>,
    RobloxError,
>)
    ensures
        r == spec_validate(request_result, parsed_body(request_result)),
{
    match request_result {
        Err(cause) => Err(RobloxError::ReqwestError(cause)),
        Ok(resp) => {
            let parsed = if resp.status == 400 || resp.status == 401 || resp.status == 403 {
                parse_json(resp.body.as_slice())
            } else {
                None
            };
            let entry = error_entry(&parsed);
            let challenge = challenge_id(&parsed);
            let RawResponse { status, xcsrf, body } = resp;
            match classify_status(status, xcsrf, entry, challenge) {
                Ok(()) => Ok(body),
                Err(e) => Err(e),
            }
        },
    }
}

/// The same exchange always gets the same outcome: classification keeps no
/// state between calls.
pub proof fn lemma_classification_is_deterministic(
    a: Result<RawResponse, String>,
    b: Result<RawResponse, String>,
)
    requires
        a == b,
    ensures
        spec_validate(a, parsed_body(a)) == spec_validate(b, parsed_body(b)),
{
}

/// A result whose value is a vector, with the vector seen as a sequence.
pub open spec fn view_ok<X>(r: Result<Vec<X>, RobloxError>) -> Result<Seq<X>, RobloxError> {
    match r {
        Ok(v) => Ok(v@),
        Err(e) => Err(e),
    }
}

/// A decoded value, or `MalformedResponse` where decoding failed.
pub open spec fn or_malformed<X>(o: Option<X>) -> Result<X, RobloxError> {
    match o {
        Some(x) => Ok(x),
        None => Err(RobloxError::MalformedResponse),
    }
}

/// The JSON of a classified exchange: the body of a 200 read as JSON, or the
/// failure.
pub open spec fn spec_response_json(request_result: Result<RawResponse, String>) -> Result<
    Json,
    RobloxError,
> {
    match spec_validate(request_result, parsed_body(request_result)) {
        Ok(body) => or_malformed(json_of(body@)),
        Err(e) => Err(e),
    }
}

/// Classifies an exchange and reads the body of a 200 as JSON;
/// `MalformedResponse` where it is no JSON text.
pub fn response_json(request_result: Result<RawResponse, String>) -> (r: Result<Json, RobloxError>)
    ensures
        r == spec_response_json(request_result),
{
    match validate_request_result(request_result) {
        Ok(body) => match parse_json(body.as_slice()) {
            Some(j) => Ok(j),
            None => Err(RobloxError::MalformedResponse),
        },
        Err(e) => Err(e),
    }
}

/// The outcome of an exchange whose 200 body is decoded by `decode`.
pub open spec fn spec_decoded<X>(
    request_result: Result<RawResponse, String>,
    decode: spec_fn(Json) -> Option<X>,
) -> Result<X, RobloxError> {
    match spec_response_json(request_result) {
        Ok(j) => or_malformed(decode(j)),
        Err(e) => Err(e),
    }
}

/// Items decoded by two decoders that agree everywhere are the same.
pub proof fn lemma_decode_each_ext<X>(
    items: Seq<Json>,
    f: spec_fn(Json) -> Option<X>,
    g: spec_fn(Json) -> Option<X>,
)
    requires
        forall|j: Json| #[trigger] f(j) == g(j),
    ensures
        decode_each(items, f) == decode_each(items, g),
{
    assert(forall|i: int| 0 <= i < items.len() ==> f(items[i]) == #[trigger] g(items[i]));
    assert(Seq::new(items.len(), |i: int| f(items[i])->Some_0) =~= Seq::new(
        items.len(),
        |i: int| g(items[i])->Some_0,
    ));
}

} // verus!
