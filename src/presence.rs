//! Presence: whether users are online, and where.
use vstd::prelude::*;

use crate::error::RobloxError;
use crate::json::{
    decode_each, decode_list, field_array, field_i32, field_opt_str, field_opt_u64, field_str,
    field_u64, spec_field_array, spec_field_i32, spec_field_opt_str, spec_field_opt_u64,
    spec_field_str, spec_field_u64, Json,
};
use crate::validation::{
    lemma_decode_each_ext, or_malformed, response_json, spec_response_json, view_ok, RawResponse,
};

verus! {

/// The presence of a user.
#[derive(Clone, Debug, PartialEq, Eq, Default)]
pub enum PresenceType {
    #[default]
    Offline,
    Online,
    InGame,
    InStudio,
    Invisible,
}

impl PresenceType {
    /// The presence that a code stands for: 0 to 4.
    pub open spec fn spec_try_from(v: i32) -> Result<PresenceType, RobloxError> {
        if v == 0 {
            Ok(PresenceType::Offline)
        } else if v == 1 {
            Ok(PresenceType::Online)
        } else if v == 2 {
            Ok(PresenceType::InGame)
        } else if v == 3 {
            Ok(PresenceType::InStudio)
        } else if v == 4 {
            Ok(PresenceType::Invisible)
        } else {
            Err(RobloxError::MalformedResponse)
        }
    }

    /// Reads a presence code; `MalformedResponse` for an unknown one.
    pub fn try_from(v: i32) -> (r: Result<PresenceType, RobloxError>)
        ensures
            r == PresenceType::spec_try_from(v),
    {
        match v {
            0 => Ok(PresenceType::Offline),
            1 => Ok(PresenceType::Online),
            2 => Ok(PresenceType::InGame),
            3 => Ok(PresenceType::InStudio),
            4 => Ok(PresenceType::Invisible),
            _ => Err(RobloxError::MalformedResponse),
        }
    }
}

/// The presence of one user.
#[derive(Clone, Debug, PartialEq, Eq)]
pub struct UserPresence {
    pub user_id: u64,
    pub presence_type: PresenceType,
    pub last_online: String,
    pub last_location: String,
    pub place_id: Option<u64>,
    pub game_id: Option<String>,
    pub universe_id: Option<u64>,
}

/// A presence record; an unknown presence code makes it malformed.
pub open spec fn spec_user_presence(j: Json) -> Option<UserPresence> {
    if spec_field_u64(j, "userId"@) is Some && spec_field_i32(j, "userPresenceType"@) is Some
        && PresenceType::spec_try_from(spec_field_i32(j, "userPresenceType"@)->Some_0) is Ok
        && spec_field_str(j, "lastOnline"@) is Some && spec_field_str(j, "lastLocation"@) is Some
        && spec_field_opt_u64(j, "placeId"@) is Some && spec_field_opt_str(j, "gameId"@) is Some
        && spec_field_opt_u64(j, "universeId"@) is Some {
        Some(
            UserPresence {
                user_id: spec_field_u64(j, "userId"@)->Some_0,
                presence_type: PresenceType::spec_try_from(
                    spec_field_i32(j, "userPresenceType"@)->Some_0,
                )->Ok_0,
                last_online: spec_field_str(j, "lastOnline"@)->Some_0,
                last_location: spec_field_str(j, "lastLocation"@)->Some_0,
                place_id: spec_field_opt_u64(j, "placeId"@)->Some_0,
                game_id: spec_field_opt_str(j, "gameId"@)->Some_0,
                universe_id: spec_field_opt_u64(j, "universeId"@)->Some_0,
            },
        )
    } else {
        None
    }
}

/// Decodes a presence record.
pub fn decode_user_presence(j: &Json) -> (r: Option<UserPresence>)
    ensures
        r == spec_user_presence(*j),
{
    let Some(user_id) = field_u64(j, "userId") else { return None };
    let Some(code) = field_i32(j, "userPresenceType") else { return None };
    let Ok(presence_type) = PresenceType::try_from(code) else { return None };
    let Some(last_online) = field_str(j, "lastOnline") else { return None };
    let Some(last_location) = field_str(j, "lastLocation") else { return None };
    let Some(place_id) = field_opt_u64(j, "placeId") else { return None };
    let Some(game_id) = field_opt_str(j, "gameId") else { return None };
    let Some(universe_id) = field_opt_u64(j, "universeId") else { return None };
    Some(
        UserPresence {
            user_id,
            presence_type,
            last_online,
            last_location,
            place_id,
            game_id,
            universe_id,
        },
    )
}

/// The records of a presence answer `{"userPresences": [..]}`.
pub open spec fn spec_presences(j: Json) -> Option<Seq<UserPresence>> {
    match spec_field_array(j, "userPresences"@) {
        Some(items) => decode_each(items, |i: Json| spec_user_presence(i)),
        None => None,
    }
}

/// The outcome of a presence lookup.
pub fn presences_from_response(request_result: Result<RawResponse, String>) -> (r: Result<
    Vec<UserPresence>,
    RobloxError,
>)
    ensures
        view_ok(r) == match spec_response_json(request_result) {
            Ok(j) => or_malformed(spec_presences(j)),
            Err(e) => Err(e),
        },
{
    let j = match response_json(request_result) {
        Ok(j) => j,
        Err(e) => return Err(e),
    };
    let Some(items) = field_array(&j, "userPresences") else {
        return Err(RobloxError::MalformedResponse)
    };
    let presences = decode_list(items, decode_user_presence, Ghost(|i: Json| spec_user_presence(i)));
    proof {
        lemma_decode_each_ext(
            items@,
            |i: Json| spec_user_presence(i),
            |i: Json| spec_user_presence(i),
        );
    }
    match presences {
        Some(v) => Ok(v),
        None => Err(RobloxError::MalformedResponse),
    }
}

} // verus!
