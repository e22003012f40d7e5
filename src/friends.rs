//! Friends: friend lists and friend requests.
use vstd::prelude::*;

use crate::error::RobloxError;
use crate::json::{
    as_str, decode_each, decode_list, decode_list_by, field, field_array, field_bool, field_opt_i32,
    field_opt_str, field_str, field_u64, spec_as_str, spec_field, spec_field_array,
    spec_field_bool, spec_field_opt_i32, spec_field_opt_str, spec_field_str, spec_field_u64, Json,
};
use crate::presence::PresenceType;
use crate::validation::{
    lemma_decode_each_ext, or_malformed, response_json, spec_response_json, view_ok, RawResponse,
};

verus! {

/// A friend, with the presence that the friend list reports.
#[derive(Clone, Debug, PartialEq, Eq)]
pub struct FriendUserInformation {
    pub user_id: u64,
    pub username: String,
    pub display_name: String,
    pub description: Option<String>,
    pub created: String,
    pub presence_type: PresenceType,
    /// Whether the user is terminated.
    pub is_terminated: bool,
    pub has_verified_badge: bool,
}

/// A friend request sent to the account.
#[derive(Clone, Debug, PartialEq, Eq)]
pub struct FriendRequest {
    pub user_id: u64,
    pub username: String,
    pub display_name: String,
    pub description: Option<String>,
    pub created: String,
    pub is_terminated: bool,
    pub has_verified_badge: bool,
    pub mutual_friends_list: Vec<String>,
    pub origin_source_type: String,
    /// The universe the request was sent from; 0 where there is none.
    pub source_universe_id: u64,
    pub sent_at: String,
}

/// The presence of a friend: a missing code reads as 0, and an unknown one
/// as offline. This field alone has a fallback.
pub open spec fn spec_friend_presence(code: Option<i32>) -> PresenceType {
    match code {
        Some(v) => match PresenceType::spec_try_from(v) {
            Ok(p) => p,
            Err(_) => PresenceType::Offline,
        },
        None => PresenceType::Offline,
    }
}

/// Reads the presence of a friend.
pub fn friend_presence(code: Option<i32>) -> (r: PresenceType)
    ensures
        r == spec_friend_presence(code),
{
    match PresenceType::try_from(
        match code {
            Some(v) => v,
            None => 0,
        },
    ) {
        Ok(p) => p,
        Err(_) => PresenceType::Offline,
    }
}

/// A friend record.
pub open spec fn spec_friend(j: Json) -> Option<FriendUserInformation> {
    if spec_field_u64(j, "id"@) is Some && spec_field_str(j, "name"@) is Some && spec_field_str(
        j,
        "displayName"@,
    ) is Some && spec_field_opt_str(j, "description"@) is Some && spec_field_str(
        j,
        "created"@,
    ) is Some && spec_field_opt_i32(j, "presenceType"@) is Some && spec_field_bool(
        j,
        "isBanned"@,
    ) is Some && spec_field_bool(j, "hasVerifiedBadge"@) is Some {
        Some(
            FriendUserInformation {
                user_id: spec_field_u64(j, "id"@)->Some_0,
                username: spec_field_str(j, "name"@)->Some_0,
                display_name: spec_field_str(j, "displayName"@)->Some_0,
                description: spec_field_opt_str(j, "description"@)->Some_0,
                created: spec_field_str(j, "created"@)->Some_0,
                presence_type: spec_friend_presence(spec_field_opt_i32(j, "presenceType"@)->Some_0),
                is_terminated: spec_field_bool(j, "isBanned"@)->Some_0,
                has_verified_badge: spec_field_bool(j, "hasVerifiedBadge"@)->Some_0,
            },
        )
    } else {
        None
    }
}

/// Decodes a friend record.
pub fn decode_friend(j: &Json) -> (r: Option<FriendUserInformation>)
    ensures
        r == spec_friend(*j),
{
    let Some(user_id) = field_u64(j, "id") else { return None };
    let Some(username) = field_str(j, "name") else { return None };
    let Some(display_name) = field_str(j, "displayName") else { return None };
    let Some(description) = field_opt_str(j, "description") else { return None };
    let Some(created) = field_str(j, "created") else { return None };
    let Some(code) = field_opt_i32(j, "presenceType") else { return None };
    let Some(is_terminated) = field_bool(j, "isBanned") else { return None };
    let Some(has_verified_badge) = field_bool(j, "hasVerifiedBadge") else { return None };
    Some(
        FriendUserInformation {
            user_id,
            username,
            display_name,
            description,
            created,
            presence_type: friend_presence(code),
            is_terminated,
            has_verified_badge,
        },
    )
}

/// The friends of a friend list `{"data": [..]}`.
pub open spec fn spec_friends(j: Json) -> Option<Seq<FriendUserInformation>> {
    match spec_field_array(j, "data"@) {
        Some(items) => decode_each(items, |i: Json| spec_friend(i)),
        None => None,
    }
}

/// The outcome of a friend list lookup.
pub fn friends_list_from_response(request_result: Result<RawResponse, String>) -> (r: Result<
    Vec<FriendUserInformation>,
    RobloxError,
>)
    ensures
        view_ok(r) == match spec_response_json(request_result) {
            Ok(j) => or_malformed(spec_friends(j)),
            Err(e) => Err(e),
        },
{
    let j = match response_json(request_result) {
        Ok(j) => j,
        Err(e) => return Err(e),
    };
    let Some(items) = field_array(&j, "data") else { return Err(RobloxError::MalformedResponse) };
    let friends = decode_list(items, decode_friend, Ghost(|i: Json| spec_friend(i)));
    proof {
        lemma_decode_each_ext(items@, |i: Json| spec_friend(i), |i: Json| spec_friend(i));
    }
    match friends {
        Some(v) => Ok(v),
        None => Err(RobloxError::MalformedResponse),
    }
}

/// A list of strings.
pub open spec fn spec_strings(items: Seq<Json>) -> Option<Seq<String>> {
    decode_each(items, |i: Json| spec_as_str(i))
}

/// Reads a list of strings.
pub fn decode_strings(items: &Vec<Json>) -> (r: Option<Vec<String>>)
    ensures
        match r {
            Some(v) => spec_strings(items@) == Some(v@),
            None => spec_strings(items@) is None,
        },
{
    let r = decode_list(items, as_str, Ghost(|i: Json| spec_as_str(i)));
    proof {
        lemma_decode_each_ext(items@, |i: Json| spec_as_str(i), |i: Json| spec_as_str(i));
    }
    r
}

/// Whether a friend request record has every field, of the right kind; its
/// `friendRequest` object holds where and when it was sent.
pub open spec fn friend_request_ok(j: Json) -> bool {
    &&& spec_field(j, "friendRequest"@) is Some
    &&& spec_field_array(j, "mutualFriendsList"@) is Some
    &&& spec_field_u64(j, "id"@) is Some
    &&& spec_field_str(j, "name"@) is Some
    &&& spec_field_str(j, "displayName"@) is Some
    &&& spec_field_opt_str(j, "description"@) is Some
    &&& spec_field_str(j, "created"@) is Some
    &&& spec_field_bool(j, "isBanned"@) is Some
    &&& spec_field_bool(j, "hasVerifiedBadge"@) is Some
    &&& spec_strings(spec_field_array(j, "mutualFriendsList"@)->Some_0) is Some
    &&& spec_field_str(spec_field(j, "friendRequest"@)->Some_0, "originSourceType"@) is Some
    &&& spec_field_u64(spec_field(j, "friendRequest"@)->Some_0, "sourceUniverseId"@) is Some
    &&& spec_field_str(spec_field(j, "friendRequest"@)->Some_0, "sentAt"@) is Some
}

/// Whether `r` holds what the friend request record `j` holds.
pub open spec fn friend_request_matches(j: Json, r: FriendRequest) -> bool {
    let fr = spec_field(j, "friendRequest"@)->Some_0;
    &&& r.user_id == spec_field_u64(j, "id"@)->Some_0
    &&& r.username == spec_field_str(j, "name"@)->Some_0
    &&& r.display_name == spec_field_str(j, "displayName"@)->Some_0
    &&& r.description == spec_field_opt_str(j, "description"@)->Some_0
    &&& r.created == spec_field_str(j, "created"@)->Some_0
    &&& r.is_terminated == spec_field_bool(j, "isBanned"@)->Some_0
    &&& r.has_verified_badge == spec_field_bool(j, "hasVerifiedBadge"@)->Some_0
    &&& r.mutual_friends_list@ == spec_strings(spec_field_array(j, "mutualFriendsList"@)->Some_0)->Some_0
    &&& r.origin_source_type == spec_field_str(fr, "originSourceType"@)->Some_0
    &&& r.source_universe_id == spec_field_u64(fr, "sourceUniverseId"@)->Some_0
    &&& r.sent_at == spec_field_str(fr, "sentAt"@)->Some_0
}

/// Decodes a friend request record.
pub fn decode_friend_request(j: &Json) -> (r: Option<FriendRequest>)
    ensures
        r is Some <==> friend_request_ok(*j),
        r is Some ==> friend_request_matches(*j, r->Some_0),
{
    let Some(fr) = field(j, "friendRequest") else { return None };
    let Some(mutual) = field_array(j, "mutualFriendsList") else { return None };
    let Some(user_id) = field_u64(j, "id") else { return None };
    let Some(username) = field_str(j, "name") else { return None };
    let Some(display_name) = field_str(j, "displayName") else { return None };
    let Some(description) = field_opt_str(j, "description") else { return None };
    let Some(created) = field_str(j, "created") else { return None };
    let Some(is_terminated) = field_bool(j, "isBanned") else { return None };
    let Some(has_verified_badge) = field_bool(j, "hasVerifiedBadge") else { return None };
    let Some(mutual_friends_list) = decode_strings(mutual) else { return None };
    let Some(origin_source_type) = field_str(fr, "originSourceType") else { return None };
    let Some(source_universe_id) = field_u64(fr, "sourceUniverseId") else { return None };
    let Some(sent_at) = field_str(fr, "sentAt") else { return None };
    Some(
        FriendRequest {
            user_id,
            username,
            display_name,
            description,
            created,
            is_terminated,
            has_verified_badge,
            mutual_friends_list,
            origin_source_type,
            source_universe_id,
            sent_at,
        },
    )
}

/// Whether a page of friend requests `{"data": [..], "nextPageCursor"}` has
/// the right shape.
pub open spec fn friend_requests_ok(j: Json) -> bool {
    &&& spec_field_array(j, "data"@) is Some
    &&& spec_field_opt_str(j, "nextPageCursor"@) is Some
    &&& forall|i: int|
        0 <= i < spec_field_array(j, "data"@)->Some_0.len() ==> #[trigger] friend_request_ok(
            spec_field_array(j, "data"@)->Some_0[i],
        )
}

/// Whether `requests` and `cursor` hold what the page `j` holds.
pub open spec fn friend_requests_match(
    j: Json,
    requests: Seq<FriendRequest>,
    cursor: Option<String>,
) -> bool {
    let items = spec_field_array(j, "data"@)->Some_0;
    &&& cursor == spec_field_opt_str(j, "nextPageCursor"@)->Some_0
    &&& requests.len() == items.len()
    &&& forall|i: int| 0 <= i < items.len() ==> #[trigger] friend_request_matches(items[i], requests[i])
}

/// The outcome of a lookup of friend requests, with the cursor of the next
/// page.
pub fn friend_requests_from_response(request_result: Result<RawResponse, String>) -> (r: Result<
    (Vec<FriendRequest>, Option<String>),
    RobloxError,
>)
    ensures
        match spec_response_json(request_result) {
            Ok(j) => if friend_requests_ok(j) {
                r is Ok && friend_requests_match(j, r->Ok_0.0@, r->Ok_0.1)
            } else {
                r == Err::<(Vec<FriendRequest>, Option<String>), RobloxError>(
                    RobloxError::MalformedResponse,
                )
            },
            Err(e) => r == Err::<(Vec<FriendRequest>, Option<String>), RobloxError>(e),
        },
{
    let j = match response_json(request_result) {
        Ok(j) => j,
        Err(e) => return Err(e),
    };
    let Some(items) = field_array(&j, "data") else { return Err(RobloxError::MalformedResponse) };
    let Some(cursor) = field_opt_str(&j, "nextPageCursor") else {
        return Err(RobloxError::MalformedResponse)
    };
    let ghost ok = |i: Json| friend_request_ok(i);
    let ghost fits = |i: Json, x: FriendRequest| friend_request_matches(i, x);
    let requests = decode_list_by(items, decode_friend_request, Ghost(ok), Ghost(fits));
    proof {
        assert forall|i: int| 0 <= i < items@.len() implies #[trigger] ok(items@[i])
            == friend_request_ok(items@[i]) by {}
        if requests is Some {
            let v = requests->Some_0@;
            assert forall|i: int| 0 <= i < items@.len() implies friend_request_matches(
                items@[i],
                v[i],
            ) by {
                assert(fits(items@[i], v[i]));
            }
            assert forall|i: int| 0 <= i < items@.len() implies friend_request_ok(items@[i]) by {
                assert(ok(items@[i]));
            }
            assert(friend_requests_ok(j));
            assert(friend_requests_match(j, v, cursor));
        } else {
            let w = choose|i: int| 0 <= i < items@.len() && !ok(items@[i]);
            assert(!friend_request_ok(items@[w]));
            assert(spec_field_array(j, "data"@)->Some_0 == items@);
            assert(!friend_request_ok(spec_field_array(j, "data"@)->Some_0[w]));
            assert(!friend_requests_ok(j));
        }
    }
    match requests {
        Some(v) => Ok((v, cursor)),
        None => Err(RobloxError::MalformedResponse),
    }
}

/// The count of a pending friend request answer `{"count": n}`.
pub open spec fn spec_pending_count(j: Json) -> Option<u64> {
    spec_field_u64(j, "count"@)
}

/// The outcome of a lookup of the number of pending friend requests.
pub fn pending_friend_requests_from_response(request_result: Result<RawResponse, String>) -> (r:
    Result<u64, RobloxError>)
    ensures
        r == match spec_response_json(request_result) {
            Ok(j) => or_malformed(spec_pending_count(j)),
            Err(e) => Err(e),
        },
{
    let j = match response_json(request_result) {
        Ok(j) => j,
        Err(e) => return Err(e),
    };
    match field_u64(&j, "count") {
        Some(n) => Ok(n),
        None => Err(RobloxError::MalformedResponse),
    }
}

} // verus!
