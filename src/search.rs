//! Search: the results of an omni search.
use vstd::prelude::*;

use crate::error::RobloxError;
use crate::json::{
    decode_each, decode_list, field_array, field_bool, field_i32, field_str, field_u64,
    field_usize, spec_field_array, spec_field_bool, spec_field_i32, spec_field_str,
    spec_field_u64, spec_field_usize, Json,
};
use crate::validation::{
    lemma_decode_each_ext, or_malformed, response_json, spec_response_json, view_ok, RawResponse,
};

verus! {

/// One result of a search.
#[derive(Clone, Debug, PartialEq, Eq)]
pub struct SearchContent {
    pub universe_id: u64,
    pub name: String,
    pub description: String,
    pub player_count: usize,
    pub total_up_votes: usize,
    pub total_down_votes: usize,
    pub emphasis: bool,
    pub is_sponsored: bool,
    pub creator_id: u64,
    pub creator_name: String,
    pub creator_has_verified_badge: bool,
    pub root_place_id: u64,
    pub minimum_age: i32,
    pub age_recommendation_display_name: String,
    pub content_type: String,
    pub content_id: u64,
}

/// A content record of a search answer.
pub open spec fn spec_search_content(j: Json) -> Option<SearchContent> {
    if spec_field_u64(j, "universeId"@) is Some && spec_field_str(j, "name"@) is Some
        && spec_field_str(j, "description"@) is Some && spec_field_usize(j, "playerCount"@) is Some
        && spec_field_usize(j, "totalUpVotes"@) is Some && spec_field_usize(j, "totalDownVotes"@) is Some
        && spec_field_bool(j, "emphasis"@) is Some && spec_field_bool(j, "isSponsored"@) is Some
        && spec_field_u64(j, "creatorId"@) is Some && spec_field_str(j, "creatorName"@) is Some
        && spec_field_bool(j, "creatorHasVerifiedBadge"@) is Some && spec_field_u64(j, "rootPlaceId"@) is Some
        && spec_field_i32(j, "minimumAge"@) is Some
        && spec_field_str(j, "ageRecommendationDisplayName"@) is Some
        && spec_field_str(j, "contentType"@) is Some && spec_field_u64(j, "contentId"@) is Some {
        Some(
            SearchContent {
                universe_id: spec_field_u64(j, "universeId"@)->Some_0,
                name: spec_field_str(j, "name"@)->Some_0,
                description: spec_field_str(j, "description"@)->Some_0,
                player_count: spec_field_usize(j, "playerCount"@)->Some_0,
                total_up_votes: spec_field_usize(j, "totalUpVotes"@)->Some_0,
                total_down_votes: spec_field_usize(j, "totalDownVotes"@)->Some_0,
                emphasis: spec_field_bool(j, "emphasis"@)->Some_0,
                is_sponsored: spec_field_bool(j, "isSponsored"@)->Some_0,
                creator_id: spec_field_u64(j, "creatorId"@)->Some_0,
                creator_name: spec_field_str(j, "creatorName"@)->Some_0,
                creator_has_verified_badge: spec_field_bool(j, "creatorHasVerifiedBadge"@)->Some_0,
                root_place_id: spec_field_u64(j, "rootPlaceId"@)->Some_0,
                minimum_age: spec_field_i32(j, "minimumAge"@)->Some_0,
                age_recommendation_display_name: spec_field_str(
                    j,
                    "ageRecommendationDisplayName"@,
                )->Some_0,
                content_type: spec_field_str(j, "contentType"@)->Some_0,
                content_id: spec_field_u64(j, "contentId"@)->Some_0,
            },
        )
    } else {
        None
    }
}

/// Decodes a content record.
pub fn decode_search_content(j: &Json) -> (r: Option<SearchContent>)
    ensures
        r == spec_search_content(*j),
{
    let Some(universe_id) = field_u64(j, "universeId") else { return None };
    let Some(name) = field_str(j, "name") else { return None };
    let Some(description) = field_str(j, "description") else { return None };
    let Some(player_count) = field_usize(j, "playerCount") else { return None };
    let Some(total_up_votes) = field_usize(j, "totalUpVotes") else { return None };
    let Some(total_down_votes) = field_usize(j, "totalDownVotes") else { return None };
    let Some(emphasis) = field_bool(j, "emphasis") else { return None };
    let Some(is_sponsored) = field_bool(j, "isSponsored") else { return None };
    let Some(creator_id) = field_u64(j, "creatorId") else { return None };
    let Some(creator_name) = field_str(j, "creatorName") else { return None };
    let Some(creator_has_verified_badge) = field_bool(j, "creatorHasVerifiedBadge") else {
        return None
    };
    let Some(root_place_id) = field_u64(j, "rootPlaceId") else { return None };
    let Some(minimum_age) = field_i32(j, "minimumAge") else { return None };
    let Some(age_recommendation_display_name) = field_str(j, "ageRecommendationDisplayName") else {
        return None
    };
    let Some(content_type) = field_str(j, "contentType") else { return None };
    let Some(content_id) = field_u64(j, "contentId") else { return None };
    Some(
        SearchContent {
            universe_id,
            name,
            description,
            player_count,
            total_up_votes,
            total_down_votes,
            emphasis,
            is_sponsored,
            creator_id,
            creator_name,
            creator_has_verified_badge,
            root_place_id,
            minimum_age,
            age_recommendation_display_name,
            content_type,
            content_id,
        },
    )
}

/// A result group `{"contentGroupType", "contents": [..], "topicId"}`: its
/// first content. A group without contents is malformed.
pub open spec fn spec_search_result(j: Json) -> Option<SearchContent> {
    if spec_field_str(j, "contentGroupType"@) is Some && spec_field_str(j, "topicId"@) is Some
        && spec_field_array(j, "contents"@) is Some {
        match decode_each(spec_field_array(j, "contents"@)->Some_0, |i: Json| spec_search_content(i)) {
            Some(v) => if v.len() > 0 {
                Some(v[0])
            } else {
                None
            },
            None => None,
        }
    } else {
        None
    }
}

/// Decodes a result group to its first content.
pub fn decode_search_result(j: &Json) -> (r: Option<SearchContent>)
    ensures
        r == spec_search_result(*j),
{
    let Some(_) = field_str(j, "contentGroupType") else { return None };
    let Some(_) = field_str(j, "topicId") else { return None };
    let Some(items) = field_array(j, "contents") else { return None };
    let contents = decode_list(
        items,
        decode_search_content,
        Ghost(|i: Json| spec_search_content(i)),
    );
    proof {
        lemma_decode_each_ext(
            items@,
            |i: Json| spec_search_content(i),
            |i: Json| spec_search_content(i),
        );
    }
    let Some(mut v) = contents else { return None };
    if v.len() == 0 {
        return None;
    }
    let first = v.swap_remove(0);
    Some(first)
}

/// The first content of each group of a search answer `{"searchResults":
/// [..], "nextPageToken", "vertical"}`.
pub open spec fn spec_search(j: Json) -> Option<Seq<SearchContent>> {
    if spec_field_str(j, "nextPageToken"@) is Some && spec_field_str(j, "vertical"@) is Some {
        match spec_field_array(j, "searchResults"@) {
            Some(items) => decode_each(items, |i: Json| spec_search_result(i)),
            None => None,
        }
    } else {
        None
    }
}

/// The outcome of a search.
pub fn omni_search_from_response(request_result: Result<RawResponse, String>) -> (r: Result<
    Vec<SearchContent>,
    RobloxError,
>)
    ensures
        view_ok(r) == match spec_response_json(request_result) {
            Ok(j) => or_malformed(spec_search(j)),
            Err(e) => Err(e),
        },
{
    let j = match response_json(request_result) {
        Ok(j) => j,
        Err(e) => return Err(e),
    };
    let Some(_) = field_str(&j, "nextPageToken") else { return Err(RobloxError::MalformedResponse) };
    let Some(_) = field_str(&j, "vertical") else { return Err(RobloxError::MalformedResponse) };
    let Some(items) = field_array(&j, "searchResults") else {
        return Err(RobloxError::MalformedResponse)
    };
    let results = decode_list(items, decode_search_result, Ghost(|i: Json| spec_search_result(i)));
    proof {
        lemma_decode_each_ext(
            items@,
            |i: Json| spec_search_result(i),
            |i: Json| spec_search_result(i),
        );
    }
    match results {
        Some(v) => Ok(v),
        None => Err(RobloxError::MalformedResponse),
    }
}

} // verus!
