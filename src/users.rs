//! Users: the identity lookup, search and details.
use vstd::prelude::*;

use crate::client::ClientUserInformation;
use crate::error::RobloxError;
use crate::json::{
    decode_each, decode_list, field_array, field_bool, field_str, field_u64, spec_field_array,
    spec_field_bool, spec_field_str, spec_field_u64, Json,
};
use crate::validation::{
    lemma_decode_each_ext, or_malformed, response_json, spec_response_json, view_ok, RawResponse,
};
use crate::User;

verus! {

/// The details of a user.
#[derive(Clone, Debug, PartialEq, Eq)]
pub struct UserDetails {
    pub username: String,
    pub display_name: String,
    pub id: u64,
    pub description: String,
    /// When the account was created, in ISO 8601.
    pub created_at: String,
    /// Whether the account is terminated.
    pub is_terminated: bool,
    pub has_verified_badge: bool,
}

/// The details of a user looked up by name.
#[derive(Clone, Debug, PartialEq, Eq)]
pub struct UsernameUserDetails {
    pub requested_username: String,
    pub username: String,
    pub display_name: String,
    pub id: u64,
    pub has_verified_badge: bool,
}

/// An identity record `{"id", "name", "displayName"}`.
pub open spec fn spec_identity(j: Json) -> Option<ClientUserInformation> {
    if spec_field_u64(j, "id"@) is Some && spec_field_str(j, "name"@) is Some && spec_field_str(
        j,
        "displayName"@,
    ) is Some {
        Some(
            ClientUserInformation {
                user_id: spec_field_u64(j, "id"@)->Some_0,
                username: spec_field_str(j, "name"@)->Some_0,
                display_name: spec_field_str(j, "displayName"@)->Some_0,
            },
        )
    } else {
        None
    }
}

/// Decodes an identity record.
pub fn decode_identity(j: &Json) -> (r: Option<ClientUserInformation>)
    ensures
        r == spec_identity(*j),
{
    let Some(user_id) = field_u64(j, "id") else { return None };
    let Some(username) = field_str(j, "name") else { return None };
    let Some(display_name) = field_str(j, "displayName") else { return None };
    Some(ClientUserInformation { user_id, username, display_name })
}

/// The outcome of the lookup of the session's own identity.
pub fn user_information_from_response(request_result: Result<RawResponse, String>) -> (r: Result<
    ClientUserInformation,
    RobloxError,
>)
    ensures
        r == match spec_response_json(request_result) {
            Ok(j) => or_malformed(spec_identity(j)),
            Err(e) => Err(e),
        },
{
    let j = match response_json(request_result) {
        Ok(j) => j,
        Err(e) => return Err(e),
    };
    match decode_identity(&j) {
        Some(info) => Ok(info),
        None => Err(RobloxError::MalformedResponse),
    }
}

/// A user of a search result.
pub open spec fn spec_user(j: Json) -> Option<User> {
    match spec_identity(j) {
        Some(i) => Some(
            User { user_id: i.user_id, username: i.username, display_name: i.display_name },
        ),
        None => None,
    }
}

/// Decodes a user of a search result.
pub fn decode_user(j: &Json) -> (r: Option<User>)
    ensures
        r == spec_user(*j),
{
    match decode_identity(j) {
        Some(i) => Some(
            User { user_id: i.user_id, username: i.username, display_name: i.display_name },
        ),
        None => None,
    }
}

/// The users of a search answer `{"data": [..]}`.
pub open spec fn spec_user_search(j: Json) -> Option<Seq<User>> {
    match spec_field_array(j, "data"@) {
        Some(items) => decode_each(items, |i: Json| spec_user(i)),
        None => None,
    }
}

/// The outcome of a user search.
pub fn user_search_from_response(request_result: Result<RawResponse, String>) -> (r: Result<
    Vec<User>,
    RobloxError,
>)
    ensures
        view_ok(r) == match spec_response_json(request_result) {
            Ok(j) => or_malformed(spec_user_search(j)),
            Err(e) => Err(e),
        },
{
    let j = match response_json(request_result) {
        Ok(j) => j,
        Err(e) => return Err(e),
    };
    let Some(items) = field_array(&j, "data") else { return Err(RobloxError::MalformedResponse) };
    let users = decode_list(items, decode_user, Ghost(|i: Json| spec_user(i)));
    proof {
        lemma_decode_each_ext(items@, |i: Json| spec_user(i), |i: Json| spec_user(i));
    }
    match users {
        Some(v) => Ok(v),
        None => Err(RobloxError::MalformedResponse),
    }
}

/// A user details record.
pub open spec fn spec_user_details(j: Json) -> Option<UserDetails> {
    if spec_field_str(j, "name"@) is Some && spec_field_str(j, "displayName"@) is Some
        && spec_field_u64(j, "id"@) is Some && spec_field_str(j, "description"@) is Some
        && spec_field_str(j, "created"@) is Some && spec_field_bool(j, "isBanned"@) is Some
        && spec_field_bool(j, "hasVerifiedBadge"@) is Some {
        Some(
            UserDetails {
                username: spec_field_str(j, "name"@)->Some_0,
                display_name: spec_field_str(j, "displayName"@)->Some_0,
                id: spec_field_u64(j, "id"@)->Some_0,
                description: spec_field_str(j, "description"@)->Some_0,
                created_at: spec_field_str(j, "created"@)->Some_0,
                is_terminated: spec_field_bool(j, "isBanned"@)->Some_0,
                has_verified_badge: spec_field_bool(j, "hasVerifiedBadge"@)->Some_0,
            },
        )
    } else {
        None
    }
}

/// Decodes a user details record.
pub fn decode_user_details(j: &Json) -> (r: Option<UserDetails>)
    ensures
        r == spec_user_details(*j),
{
    let Some(username) = field_str(j, "name") else { return None };
    let Some(display_name) = field_str(j, "displayName") else { return None };
    let Some(id) = field_u64(j, "id") else { return None };
    let Some(description) = field_str(j, "description") else { return None };
    let Some(created_at) = field_str(j, "created") else { return None };
    let Some(is_terminated) = field_bool(j, "isBanned") else { return None };
    let Some(has_verified_badge) = field_bool(j, "hasVerifiedBadge") else { return None };
    Some(
        UserDetails {
            username,
            display_name,
            id,
            description,
            created_at,
            is_terminated,
            has_verified_badge,
        },
    )
}

/// The outcome of a user details lookup.
pub fn user_details_from_response(request_result: Result<RawResponse, String>) -> (r: Result<
    UserDetails,
    RobloxError,
>)
    ensures
        r == match spec_response_json(request_result) {
            Ok(j) => or_malformed(spec_user_details(j)),
            Err(e) => Err(e),
        },
{
    let j = match response_json(request_result) {
        Ok(j) => j,
        Err(e) => return Err(e),
    };
    match decode_user_details(&j) {
        Some(d) => Ok(d),
        None => Err(RobloxError::MalformedResponse),
    }
}

/// A record of a lookup by name.
pub open spec fn spec_username_user_details(j: Json) -> Option<UsernameUserDetails> {
    if spec_field_str(j, "requestedUsername"@) is Some && spec_field_str(j, "name"@) is Some
        && spec_field_str(j, "displayName"@) is Some && spec_field_u64(j, "id"@) is Some
        && spec_field_bool(j, "hasVerifiedBadge"@) is Some {
        Some(
            UsernameUserDetails {
                requested_username: spec_field_str(j, "requestedUsername"@)->Some_0,
                username: spec_field_str(j, "name"@)->Some_0,
                display_name: spec_field_str(j, "displayName"@)->Some_0,
                id: spec_field_u64(j, "id"@)->Some_0,
                has_verified_badge: spec_field_bool(j, "hasVerifiedBadge"@)->Some_0,
            },
        )
    } else {
        None
    }
}

/// Decodes a record of a lookup by name.
pub fn decode_username_user_details(j: &Json) -> (r: Option<UsernameUserDetails>)
    ensures
        r == spec_username_user_details(*j),
{
    let Some(requested_username) = field_str(j, "requestedUsername") else { return None };
    let Some(username) = field_str(j, "name") else { return None };
    let Some(display_name) = field_str(j, "displayName") else { return None };
    let Some(id) = field_u64(j, "id") else { return None };
    let Some(has_verified_badge) = field_bool(j, "hasVerifiedBadge") else { return None };
    Some(UsernameUserDetails { requested_username, username, display_name, id, has_verified_badge })
}

/// The records of a lookup by name `{"data": [..]}`.
pub open spec fn spec_username_user_details_list(j: Json) -> Option<Seq<UsernameUserDetails>> {
    match spec_field_array(j, "data"@) {
        Some(items) => decode_each(items, |i: Json| spec_username_user_details(i)),
        None => None,
    }
}

/// The outcome of a lookup of users by name.
pub fn username_user_details_from_response(request_result: Result<RawResponse, String>) -> (r:
    Result<Vec<UsernameUserDetails>, RobloxError>)
    ensures
        view_ok(r) == match spec_response_json(request_result) {
            Ok(j) => or_malformed(spec_username_user_details_list(j)),
            Err(e) => Err(e),
        },
{
    let j = match response_json(request_result) {
        Ok(j) => j,
        Err(e) => return Err(e),
    };
    let Some(items) = field_array(&j, "data") else { return Err(RobloxError::MalformedResponse) };
    let users = decode_list(
        items,
        decode_username_user_details,
        Ghost(|i: Json| spec_username_user_details(i)),
    );
    proof {
        lemma_decode_each_ext(
            items@,
            |i: Json| spec_username_user_details(i),
            |i: Json| spec_username_user_details(i),
        );
    }
    match users {
        Some(v) => Ok(v),
        None => Err(RobloxError::MalformedResponse),
    }
}

} // verus!
