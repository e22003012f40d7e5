//! Discovery: the topics of the home page with their recommended games.
use vstd::prelude::*;

use crate::error::RobloxError;
use crate::json::{
    decimal_string, decimal_text, decode_each, decode_list, field, field_array, field_i32,
    field_opt_str, field_str, field_u64, field_usize, find_field, lookup, spec_field,
    spec_field_array, spec_field_i32, spec_field_opt_str, spec_field_str, spec_field_u64,
    spec_field_usize, text_is, Json,
};
use crate::validation::{lemma_decode_each_ext, response_json, spec_response_json, RawResponse};

verus! {

/// How a topic is laid out.
#[derive(Clone, Debug, PartialEq, Eq, Default)]
pub enum TreatmentType {
    /// A carousel of friends.
    #[default]
    FriendCarousel,
    /// A carousel of wide cards.
    Carousel,
    /// A grid of square cards.
    SortlessGrid,
}

impl TreatmentType {
    pub open spec fn spec_try_from(value: String) -> Result<TreatmentType, RobloxError> {
        if value@ == "FriendCarousel"@ {
            Ok(TreatmentType::FriendCarousel)
        } else if value@ == "Carousel"@ {
            Ok(TreatmentType::Carousel)
        } else if value@ == "SortlessGrid"@ {
            Ok(TreatmentType::SortlessGrid)
        } else {
            Err(RobloxError::MalformedResponse)
        }
    }

    /// Reads a layout by its name; `MalformedResponse` for an unknown one.
    pub fn try_from(value: String) -> (r: Result<TreatmentType, RobloxError>)
        ensures
            r == TreatmentType::spec_try_from(value),
    {
        if text_is(&value, "FriendCarousel") {
            Ok(TreatmentType::FriendCarousel)
        } else if text_is(&value, "Carousel") {
            Ok(TreatmentType::Carousel)
        } else if text_is(&value, "SortlessGrid") {
            Ok(TreatmentType::SortlessGrid)
        } else {
            Err(RobloxError::MalformedResponse)
        }
    }
}

/// A recommended game.
#[derive(Clone, Debug, PartialEq, Eq)]
pub struct Recommendation {
    pub universe_id: u64,
    pub root_place_id: u64,
    pub name: String,
    pub description: Option<String>,
    pub total_up_votes: u64,
    pub total_down_votes: u64,
    pub player_count: usize,
}

/// A topic of the home page.
#[derive(Clone, Debug, PartialEq, Eq)]
pub struct RecommendationsTopic {
    pub topic_id: u64,
    /// The title.
    pub topic: Option<String>,
    pub subtitle: Option<String>,
    pub treatment_type: TreatmentType,
    pub recommendation_list: Vec<Recommendation>,
}

/// A game metadata record.
pub open spec fn spec_metadata(j: Json) -> Option<Recommendation> {
    if spec_field_u64(j, "universeId"@) is Some && spec_field_u64(j, "rootPlaceId"@) is Some
        && spec_field_str(j, "name"@) is Some && spec_field_opt_str(j, "description"@) is Some
        && spec_field_u64(j, "totalUpVotes"@) is Some && spec_field_u64(j, "totalDownVotes"@) is Some
        && spec_field_usize(j, "playerCount"@) is Some {
        Some(
            Recommendation {
                universe_id: spec_field_u64(j, "universeId"@)->Some_0,
                root_place_id: spec_field_u64(j, "rootPlaceId"@)->Some_0,
                name: spec_field_str(j, "name"@)->Some_0,
                description: spec_field_opt_str(j, "description"@)->Some_0,
                total_up_votes: spec_field_u64(j, "totalUpVotes"@)->Some_0,
                total_down_votes: spec_field_u64(j, "totalDownVotes"@)->Some_0,
                player_count: spec_field_usize(j, "playerCount"@)->Some_0,
            },
        )
    } else {
        None
    }
}

/// Decodes a game metadata record.
pub fn decode_metadata(j: &Json) -> (r: Option<Recommendation>)
    ensures
        r == spec_metadata(*j),
{
    let Some(universe_id) = field_u64(j, "universeId") else { return None };
    let Some(root_place_id) = field_u64(j, "rootPlaceId") else { return None };
    let Some(name) = field_str(j, "name") else { return None };
    let Some(description) = field_opt_str(j, "description") else { return None };
    let Some(total_up_votes) = field_u64(j, "totalUpVotes") else { return None };
    let Some(total_down_votes) = field_u64(j, "totalDownVotes") else { return None };
    let Some(player_count) = field_usize(j, "playerCount") else { return None };
    Some(
        Recommendation {
            universe_id,
            root_place_id,
            name,
            description,
            total_up_votes,
            total_down_votes,
            player_count,
        },
    )
}

/// A recommendation `{"contentType", "contentId", "contentStringId"}`,
/// resolved through the game metadata, which is keyed by the decimal text
/// of the content id; one that has no metadata is malformed.
pub open spec fn spec_recommendation(r: Json, meta: Seq<(String, Json)>) -> Option<
    Recommendation,
> {
    if spec_field_str(r, "contentType"@) is Some && spec_field_u64(r, "contentId"@) is Some
        && spec_field_str(r, "contentStringId"@) is Some {
        match find_field(meta, decimal_text(spec_field_u64(r, "contentId"@)->Some_0 as nat)) {
            Some(m) => spec_metadata(m),
            None => None,
        }
    } else {
        None
    }
}

/// Decodes a recommendation and resolves it through the game metadata.
pub fn decode_recommendation(r: &Json, meta: &Vec<(String, Json)>) -> (o: Option<Recommendation>)
    ensures
        o == spec_recommendation(*r, meta@),
{
    let Some(_) = field_str(r, "contentType") else { return None };
    let Some(id) = field_u64(r, "contentId") else { return None };
    let Some(_) = field_str(r, "contentStringId") else { return None };
    let key = decimal_string(id);
    match lookup(meta, key.as_str()) {
        Some(m) => decode_metadata(m),
        None => None,
    }
}

/// The recommendations of a topic.
pub open spec fn spec_recommendations(list: Seq<Json>, meta: Seq<(String, Json)>) -> Option<
    Seq<Recommendation>,
> {
    decode_each(list, |r: Json| spec_recommendation(r, meta))
}

/// Whether a topic carries a list of recommendations; one whose list is
/// missing or null is left out.
pub open spec fn has_list(s: Json) -> bool {
    spec_field_array(s, "recommendationList"@) is Some
}

/// Whether a topic record has every field, of the right kind; and, where it
/// carries a list, a known layout and recommendations that all resolve.
pub open spec fn topic_ok(s: Json, meta: Seq<(String, Json)>) -> bool {
    &&& spec_field_opt_str(s, "topic"@) is Some
    &&& spec_field_opt_str(s, "subtitle"@) is Some
    &&& spec_field_u64(s, "topicId"@) is Some
    &&& spec_field_str(s, "treatmentType"@) is Some
    &&& spec_field_i32(s, "numberOfRows"@) is Some
    &&& (spec_field(s, "recommendationList"@) matches Some(l) ==> (l is Null || l is Array))
    &&& has_list(s) ==> {
        &&& TreatmentType::spec_try_from(spec_field_str(s, "treatmentType"@)->Some_0) is Ok
        &&& spec_recommendations(spec_field_array(s, "recommendationList"@)->Some_0, meta) is Some
    }
}

/// Whether `t` holds what the topic record `s` holds.
pub open spec fn topic_matches(s: Json, meta: Seq<(String, Json)>, t: RecommendationsTopic) -> bool {
    &&& t.topic_id == spec_field_u64(s, "topicId"@)->Some_0
    &&& t.topic == spec_field_opt_str(s, "topic"@)->Some_0
    &&& t.subtitle == spec_field_opt_str(s, "subtitle"@)->Some_0
    &&& t.treatment_type == TreatmentType::spec_try_from(
        spec_field_str(s, "treatmentType"@)->Some_0,
    )->Ok_0
    &&& t.recommendation_list@ == spec_recommendations(
        spec_field_array(s, "recommendationList"@)->Some_0,
        meta,
    )->Some_0
}

/// Decodes a topic: `None` where it is malformed, `Some(None)` where it
/// carries no list.
pub fn decode_topic(s: &Json, meta: &Vec<(String, Json)>) -> (r: Option<
    Option<RecommendationsTopic>,
>)
    ensures
        r is Some <==> topic_ok(*s, meta@),
        r matches Some(Some(t)) ==> has_list(*s) && topic_matches(*s, meta@, t),
        r matches Some(None) ==> !has_list(*s),
{
    let Some(topic) = field_opt_str(s, "topic") else { return None };
    let Some(subtitle) = field_opt_str(s, "subtitle") else { return None };
    let Some(topic_id) = field_u64(s, "topicId") else { return None };
    let Some(treatment) = field_str(s, "treatmentType") else { return None };
    let Some(_) = field_i32(s, "numberOfRows") else { return None };
    let list = match field(s, "recommendationList") {
        Some(Json::Array(items)) => items,
        Some(Json::Null) | None => return Some(None),
        Some(_) => return None,
    };
    let Ok(treatment_type) = TreatmentType::try_from(treatment) else { return None };
    let resolve = |r: &Json| -> (o: Option<Recommendation>)
        ensures
            o == spec_recommendation(*r, meta@),
        { decode_recommendation(r, meta) };
    let recommendations = decode_list(
        list,
        resolve,
        Ghost(|r: Json| spec_recommendation(r, meta@)),
    );
    proof {
        lemma_decode_each_ext(
            list@,
            |r: Json| spec_recommendation(r, meta@),
            |r: Json| spec_recommendation(r, meta@),
        );
    }
    let Some(recommendation_list) = recommendations else { return None };
    Some(Some(RecommendationsTopic { topic_id, topic, subtitle, treatment_type, recommendation_list }))
}

/// Whether `topics` holds, in order, the topics of `sorts` that carry a
/// list.
pub open spec fn topics_match(
    sorts: Seq<Json>,
    meta: Seq<(String, Json)>,
    topics: Seq<RecommendationsTopic>,
) -> bool
    decreases sorts.len(),
{
    if sorts.len() == 0 {
        topics.len() == 0
    } else if has_list(sorts.last()) {
        &&& topics.len() > 0
        &&& topic_matches(sorts.last(), meta, topics.last())
        &&& topics_match(sorts.drop_last(), meta, topics.drop_last())
    } else {
        topics_match(sorts.drop_last(), meta, topics)
    }
}

/// The game metadata of an answer: the fields of `contentMetadata.Game`.
pub open spec fn spec_meta(j: Json) -> Option<Seq<(String, Json)>> {
    match spec_field(j, "contentMetadata"@) {
        Some(cm) => match spec_field(cm, "Game"@) {
            Some(Json::Object(fields)) => Some(fields@),
            _ => None,
        },
        None => None,
    }
}

/// Whether a home page answer `{"sorts": [..], "contentMetadata": {"Game":
/// {..}}}` has the right shape: every metadata record and every topic.
pub open spec fn recommendations_ok(j: Json) -> bool {
    &&& spec_meta(j) is Some
    &&& forall|k: int|
        0 <= k < spec_meta(j)->Some_0.len() ==> #[trigger] spec_metadata(
            spec_meta(j)->Some_0[k].1,
        ) is Some
    &&& spec_field_array(j, "sorts"@) is Some
    &&& forall|i: int|
        0 <= i < spec_field_array(j, "sorts"@)->Some_0.len() ==> #[trigger] topic_ok(
            spec_field_array(j, "sorts"@)->Some_0[i],
            spec_meta(j)->Some_0,
        )
}

/// The outcome of a home page lookup: the topics that carry a list, in
/// order.
pub fn omni_recommendations_from_response(request_result: Result<RawResponse, String>) -> (r:
    Result<Vec<RecommendationsTopic>, RobloxError>)
    ensures
        match spec_response_json(request_result) {
            Ok(j) => if recommendations_ok(j) {
                r is Ok && topics_match(
                    spec_field_array(j, "sorts"@)->Some_0,
                    spec_meta(j)->Some_0,
                    r->Ok_0@,
                )
            } else {
                r == Err::<Vec<RecommendationsTopic>, RobloxError>(RobloxError::MalformedResponse)
            },
            Err(e) => r == Err::<Vec<RecommendationsTopic>, RobloxError>(e),
        },
{
    let j = match response_json(request_result) {
        Ok(j) => j,
        Err(e) => return Err(e),
    };
    let Some(cm) = field(&j, "contentMetadata") else { return Err(RobloxError::MalformedResponse) };
    let meta = match field(cm, "Game") {
        Some(Json::Object(fields)) => fields,
        _ => return Err(RobloxError::MalformedResponse),
    };
    assert(spec_meta(j) == Some(meta@));
    let mut k: usize = 0;
    #[verifier::loop_isolation(false)]
    while k < meta.len()
        invariant
            0 <= k <= meta@.len(),
            spec_meta(j) == Some(meta@),
            forall|m: int| 0 <= m < k ==> #[trigger] spec_metadata(meta@[m].1) is Some,
        decreases meta@.len() - k,
    {
        if decode_metadata(&meta[k].1).is_none() {
            assert(spec_meta(j)->Some_0[k as int] == meta@[k as int]);
            assert(!(spec_metadata(spec_meta(j)->Some_0[k as int].1) is Some));
            return Err(RobloxError::MalformedResponse);
        }
        k = k + 1;
    }
    let Some(sorts) = field_array(&j, "sorts") else { return Err(RobloxError::MalformedResponse) };
    let mut topics: Vec<RecommendationsTopic> = Vec::new();
    let mut i: usize = 0;
    assert(sorts@.subrange(0, 0) =~= Seq::<Json>::empty());
    #[verifier::loop_isolation(false)]
    while i < sorts.len()
        invariant
            0 <= i <= sorts@.len(),
            spec_meta(j) == Some(meta@),
            spec_field_array(j, "sorts"@) == Some(sorts@),
            forall|m: int| 0 <= m < meta@.len() ==> #[trigger] spec_metadata(meta@[m].1) is Some,
            forall|m: int| 0 <= m < i ==> #[trigger] topic_ok(sorts@[m], meta@),
            topics_match(sorts@.subrange(0, i as int), meta@, topics@),
        decreases sorts@.len() - i,
    {
        let ghost before = topics@;
        match decode_topic(&sorts[i], meta) {
            Some(Some(t)) => topics.push(t),
            Some(None) => {},
            None => {
                assert(!topic_ok(sorts@[i as int], meta@));
                assert(spec_field_array(j, "sorts"@)->Some_0[i as int] == sorts@[i as int]);
                assert(!topic_ok(spec_field_array(j, "sorts"@)->Some_0[i as int], spec_meta(j)->Some_0));
                assert(!recommendations_ok(j));
                return Err(RobloxError::MalformedResponse);
            },
        }
        proof {
            let p = sorts@.subrange(0, i as int + 1);
            assert(p.drop_last() =~= sorts@.subrange(0, i as int));
            assert(p.last() == sorts@[i as int]);
            if has_list(sorts@[i as int]) {
                assert(topics@.drop_last() =~= before);
            }
        }
        i = i + 1;
    }
    assert(sorts@.subrange(0, sorts@.len() as int) =~= sorts@);
    Ok(topics)
}

} // verus!
