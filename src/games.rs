//! Games: universes, places, media and the server list parameters.
use vstd::prelude::*;

use crate::error::RobloxError;
use crate::friends::{decode_strings, spec_strings};
use crate::json::{
    decode_each, decode_list, decode_list_by, field, field_array, field_bool, field_i32,
    field_opt_i32, field_opt_str, field_opt_u64, field_str, field_u64, spec_field,
    spec_field_array, spec_field_bool, spec_field_i32, spec_field_opt_i32, spec_field_opt_str,
    spec_field_opt_u64, spec_field_str, spec_field_u64, text_is, Json,
};
use crate::validation::{
    lemma_decode_each_ext, or_malformed, response_json, spec_response_json, view_ok, RawResponse,
};

verus! {

/// The avatar type that a game forces, if any.
#[derive(Clone, Debug, PartialEq, Eq, Default)]
pub enum AvatarType {
    MorphToR6,
    MorphToR15,
    #[default]
    PlayerChoice,
}

impl AvatarType {
    pub open spec fn spec_try_from(value: String) -> Result<AvatarType, RobloxError> {
        if value@ == "MorphToR6"@ {
            Ok(AvatarType::MorphToR6)
        } else if value@ == "MorphToR15"@ {
            Ok(AvatarType::MorphToR15)
        } else if value@ == "PlayerChoice"@ {
            Ok(AvatarType::PlayerChoice)
        } else {
            Err(RobloxError::MalformedResponse)
        }
    }

    /// Reads an avatar type by its name; `MalformedResponse` for an unknown
    /// one.
    pub fn try_from(value: String) -> (r: Result<AvatarType, RobloxError>)
        ensures
            r == AvatarType::spec_try_from(value),
    {
        if text_is(&value, "MorphToR6") {
            Ok(AvatarType::MorphToR6)
        } else if text_is(&value, "MorphToR15") {
            Ok(AvatarType::MorphToR15)
        } else if text_is(&value, "PlayerChoice") {
            Ok(AvatarType::PlayerChoice)
        } else {
            Err(RobloxError::MalformedResponse)
        }
    }
}

/// The kind of a media item of a game.
#[derive(Clone, Debug, PartialEq, Eq, Default)]
pub enum GameMediaType {
    #[default]
    Image,
    YouTubeVideo,
}

impl GameMediaType {
    pub open spec fn spec_try_from(value: String) -> Result<GameMediaType, RobloxError> {
        if value@ == "Image"@ {
            Ok(GameMediaType::Image)
        } else if value@ == "YouTubeVideo"@ {
            Ok(GameMediaType::YouTubeVideo)
        } else {
            Err(RobloxError::MalformedResponse)
        }
    }

    /// Reads a media kind by its name; `MalformedResponse` for an unknown
    /// one.
    pub fn try_from(value: String) -> (r: Result<GameMediaType, RobloxError>)
        ensures
            r == GameMediaType::spec_try_from(value),
    {
        if text_is(&value, "Image") {
            Ok(GameMediaType::Image)
        } else if text_is(&value, "YouTubeVideo") {
            Ok(GameMediaType::YouTubeVideo)
        } else {
            Err(RobloxError::MalformedResponse)
        }
    }
}

/// The creator of a game.
#[derive(Clone, Debug, PartialEq, Eq)]
pub struct GameCreator {
    pub id: u64,
    pub name: String,
    pub creator_type: String,
    pub is_rnv_account: bool,
    pub has_verified_badge: bool,
}

/// The details of a universe.
#[derive(Clone, Debug, PartialEq, Eq)]
pub struct GameDetail {
    pub universe_id: u64,
    pub root_place_id: u64,
    /// The translated name.
    pub name: String,
    /// The translated description.
    pub description: String,
    pub source_name: String,
    pub source_description: String,
    pub creator: GameCreator,
    pub price: Option<i32>,
    pub allowed_gear_genres: Vec<String>,
    pub allowed_gear_categories: Vec<String>,
    pub is_genre_enforced: bool,
    pub copying_allowed: bool,
    pub playing: u64,
    pub visits: u64,
    pub max_players: u64,
    pub created: String,
    pub updated: String,
    pub universe_avatar_type: AvatarType,
    pub genre: String,
    pub is_all_genre: bool,
    pub is_favorited_by_user: bool,
    pub favorited_count: u64,
}

/// The details of a place.
#[derive(Clone, Debug, PartialEq, Eq)]
pub struct PlaceDetails {
    pub place_id: u64,
    pub name: String,
    pub description: String,
    pub source_name: String,
    pub source_description: String,
    pub url: String,
    pub is_playable: bool,
    pub reason_prohibited: String,
    pub price: i32,
    pub image_token: String,
    pub builder: String,
    pub builder_id: u64,
    pub has_verified_badge: bool,
    pub universe_id: u64,
    pub universe_root_place_id: u64,
}

/// A media item of a game.
#[derive(Clone, Debug, PartialEq, Eq)]
pub struct GameMedia {
    pub asset_type_id: u64,
    pub asset_type: GameMediaType,
    pub approved: bool,
    pub image_id: Option<u64>,
    pub alt_text: Option<String>,
    pub video_hash: Option<String>,
    pub video_title: Option<String>,
}

/// Which servers of a place to list.
#[derive(Clone, Copy, Debug, PartialEq, Eq, Default)]
pub enum ServerType {
    #[default]
    Public,
    Friends,
}

/// The order of a server list.
#[derive(Clone, Copy, Debug, PartialEq, Eq, Default)]
pub enum SortOrder {
    Ascending,
    #[default]
    Descending,
}

impl ServerType {
    pub open spec fn spec_query_code(servers_type: Option<ServerType>) -> u64 {
        match servers_type {
            Some(ServerType::Friends) => 1,
            _ => 0,
        }
    }

    /// The code of the server list path: 0 for public servers, the default,
    /// and 1 for servers of friends.
    pub fn query_code(servers_type: Option<ServerType>) -> (r: u64)
        ensures
            r == ServerType::spec_query_code(servers_type),
    {
        match servers_type {
            Some(ServerType::Friends) => 1,
            _ => 0,
        }
    }
}

impl SortOrder {
    pub open spec fn spec_query_code(sort_order: Option<SortOrder>) -> u64 {
        match sort_order {
            Some(SortOrder::Ascending) => 1,
            _ => 2,
        }
    }

    /// The code of the `sortOrder` query parameter: 1 for ascending, 2 for
    /// descending, the default.
    pub fn query_code(sort_order: Option<SortOrder>) -> (r: u64)
        ensures
            r == SortOrder::spec_query_code(sort_order),
    {
        match sort_order {
            Some(SortOrder::Ascending) => 1,
            _ => 2,
        }
    }
}

/// The record that a lookup of one id returned: the first, or
/// `BadRequest` where there is none.
pub fn first_or_bad_request<T>(records: Vec<T>) -> (r: Result<T, RobloxError>)
    ensures
        records@.len() > 0 ==> r == Ok::<T, RobloxError>(records@[0]),
        records@.len() == 0 ==> r == Err::<T, RobloxError>(RobloxError::BadRequest),
{
    let mut records = records;
    if records.len() == 0 {
        return Err(RobloxError::BadRequest);
    }
    Ok(records.swap_remove(0))
}

/// A creator object `{"id", "name", "type", "isRNVAccount",
/// "hasVerifiedBadge"}`.
pub open spec fn spec_game_creator(j: Json) -> Option<GameCreator> {
    if spec_field_u64(j, "id"@) is Some && spec_field_str(j, "name"@) is Some && spec_field_str(
        j,
        "type"@,
    ) is Some && spec_field_bool(j, "isRNVAccount"@) is Some && spec_field_bool(
        j,
        "hasVerifiedBadge"@,
    ) is Some {
        Some(
            GameCreator {
                id: spec_field_u64(j, "id"@)->Some_0,
                name: spec_field_str(j, "name"@)->Some_0,
                creator_type: spec_field_str(j, "type"@)->Some_0,
                is_rnv_account: spec_field_bool(j, "isRNVAccount"@)->Some_0,
                has_verified_badge: spec_field_bool(j, "hasVerifiedBadge"@)->Some_0,
            },
        )
    } else {
        None
    }
}

/// Decodes a creator object.
pub fn decode_game_creator(j: &Json) -> (r: Option<GameCreator>)
    ensures
        r == spec_game_creator(*j),
{
    let Some(id) = field_u64(j, "id") else { return None };
    let Some(name) = field_str(j, "name") else { return None };
    let Some(creator_type) = field_str(j, "type") else { return None };
    let Some(is_rnv_account) = field_bool(j, "isRNVAccount") else { return None };
    let Some(has_verified_badge) = field_bool(j, "hasVerifiedBadge") else { return None };
    Some(GameCreator { id, name, creator_type, is_rnv_account, has_verified_badge })
}

/// Whether a universe record has every field, of the right kind, and an
/// avatar type with a name that is known.
pub open spec fn game_detail_ok(j: Json) -> bool {
    &&& spec_field_u64(j, "id"@) is Some
    &&& spec_field_u64(j, "rootPlaceId"@) is Some
    &&& spec_field_str(j, "name"@) is Some
    &&& spec_field_str(j, "description"@) is Some
    &&& spec_field_str(j, "sourceName"@) is Some
    &&& spec_field_str(j, "sourceDescription"@) is Some
    &&& spec_field(j, "creator"@) is Some
    &&& spec_game_creator(spec_field(j, "creator"@)->Some_0) is Some
    &&& spec_field_opt_i32(j, "price"@) is Some
    &&& spec_field_array(j, "allowedGearGenres"@) is Some
    &&& spec_strings(spec_field_array(j, "allowedGearGenres"@)->Some_0) is Some
    &&& spec_field_array(j, "allowedGearCategories"@) is Some
    &&& spec_strings(spec_field_array(j, "allowedGearCategories"@)->Some_0) is Some
    &&& spec_field_bool(j, "isGenreEnforced"@) is Some
    &&& spec_field_bool(j, "copyingAllowed"@) is Some
    &&& spec_field_u64(j, "playing"@) is Some
    &&& spec_field_u64(j, "visits"@) is Some
    &&& spec_field_u64(j, "maxPlayers"@) is Some
    &&& spec_field_str(j, "created"@) is Some
    &&& spec_field_str(j, "updated"@) is Some
    &&& spec_field_bool(j, "studioAccessToApisAllowed"@) is Some
    &&& spec_field_bool(j, "createVipServersAllowed"@) is Some
    &&& spec_field_str(j, "universeAvatarType"@) is Some
    &&& AvatarType::spec_try_from(spec_field_str(j, "universeAvatarType"@)->Some_0) is Ok
    &&& spec_field_str(j, "genre"@) is Some
    &&& spec_field_bool(j, "isAllGenre"@) is Some
    &&& spec_field_bool(j, "isFavoritedByUser"@) is Some
    &&& spec_field_u64(j, "favoritedCount"@) is Some
}

/// Whether `g` holds what the universe record `j` holds.
pub open spec fn game_detail_matches(j: Json, g: GameDetail) -> bool {
    &&& g.universe_id == spec_field_u64(j, "id"@)->Some_0
    &&& g.root_place_id == spec_field_u64(j, "rootPlaceId"@)->Some_0
    &&& g.name == spec_field_str(j, "name"@)->Some_0
    &&& g.description == spec_field_str(j, "description"@)->Some_0
    &&& g.source_name == spec_field_str(j, "sourceName"@)->Some_0
    &&& g.source_description == spec_field_str(j, "sourceDescription"@)->Some_0
    &&& g.creator == spec_game_creator(spec_field(j, "creator"@)->Some_0)->Some_0
    &&& g.price == spec_field_opt_i32(j, "price"@)->Some_0
    &&& g.allowed_gear_genres@ == spec_strings(
        spec_field_array(j, "allowedGearGenres"@)->Some_0,
    )->Some_0
    &&& g.allowed_gear_categories@ == spec_strings(
        spec_field_array(j, "allowedGearCategories"@)->Some_0,
    )->Some_0
    &&& g.is_genre_enforced == spec_field_bool(j, "isGenreEnforced"@)->Some_0
    &&& g.copying_allowed == spec_field_bool(j, "copyingAllowed"@)->Some_0
    &&& g.playing == spec_field_u64(j, "playing"@)->Some_0
    &&& g.visits == spec_field_u64(j, "visits"@)->Some_0
    &&& g.max_players == spec_field_u64(j, "maxPlayers"@)->Some_0
    &&& g.created == spec_field_str(j, "created"@)->Some_0
    &&& g.updated == spec_field_str(j, "updated"@)->Some_0
    &&& g.universe_avatar_type == AvatarType::spec_try_from(
        spec_field_str(j, "universeAvatarType"@)->Some_0,
    )->Ok_0
    &&& g.genre == spec_field_str(j, "genre"@)->Some_0
    &&& g.is_all_genre == spec_field_bool(j, "isAllGenre"@)->Some_0
    &&& g.is_favorited_by_user == spec_field_bool(j, "isFavoritedByUser"@)->Some_0
    &&& g.favorited_count == spec_field_u64(j, "favoritedCount"@)->Some_0
}

/// Decodes a universe record.
pub fn decode_game_detail(j: &Json) -> (r: Option<GameDetail>)
    ensures
        r is Some <==> game_detail_ok(*j),
        r is Some ==> game_detail_matches(*j, r->Some_0),
{
    let Some(universe_id) = field_u64(j, "id") else { return None };
    let Some(root_place_id) = field_u64(j, "rootPlaceId") else { return None };
    let Some(name) = field_str(j, "name") else { return None };
    let Some(description) = field_str(j, "description") else { return None };
    let Some(source_name) = field_str(j, "sourceName") else { return None };
    let Some(source_description) = field_str(j, "sourceDescription") else { return None };
    let Some(creator_json) = field(j, "creator") else { return None };
    let Some(creator) = decode_game_creator(creator_json) else { return None };
    let Some(price) = field_opt_i32(j, "price") else { return None };
    let Some(genres) = field_array(j, "allowedGearGenres") else { return None };
    let Some(allowed_gear_genres) = decode_strings(genres) else { return None };
    let Some(categories) = field_array(j, "allowedGearCategories") else { return None };
    let Some(allowed_gear_categories) = decode_strings(categories) else { return None };
    let Some(is_genre_enforced) = field_bool(j, "isGenreEnforced") else { return None };
    let Some(copying_allowed) = field_bool(j, "copyingAllowed") else { return None };
    let Some(playing) = field_u64(j, "playing") else { return None };
    let Some(visits) = field_u64(j, "visits") else { return None };
    let Some(max_players) = field_u64(j, "maxPlayers") else { return None };
    let Some(created) = field_str(j, "created") else { return None };
    let Some(updated) = field_str(j, "updated") else { return None };
    let Some(_) = field_bool(j, "studioAccessToApisAllowed") else { return None };
    let Some(_) = field_bool(j, "createVipServersAllowed") else { return None };
    let Some(avatar) = field_str(j, "universeAvatarType") else { return None };
    let Ok(universe_avatar_type) = AvatarType::try_from(avatar) else { return None };
    let Some(genre) = field_str(j, "genre") else { return None };
    let Some(is_all_genre) = field_bool(j, "isAllGenre") else { return None };
    let Some(is_favorited_by_user) = field_bool(j, "isFavoritedByUser") else { return None };
    let Some(favorited_count) = field_u64(j, "favoritedCount") else { return None };
    Some(
        GameDetail {
            universe_id,
            root_place_id,
            name,
            description,
            source_name,
            source_description,
            creator,
            price,
            allowed_gear_genres,
            allowed_gear_categories,
            is_genre_enforced,
            copying_allowed,
            playing,
            visits,
            max_players,
            created,
            updated,
            universe_avatar_type,
            genre,
            is_all_genre,
            is_favorited_by_user,
            favorited_count,
        },
    )
}

/// Whether a universe answer `{"data": [..]}` has the right shape.
pub open spec fn games_details_ok(j: Json) -> bool {
    &&& spec_field_array(j, "data"@) is Some
    &&& forall|i: int|
        0 <= i < spec_field_array(j, "data"@)->Some_0.len() ==> #[trigger] game_detail_ok(
            spec_field_array(j, "data"@)->Some_0[i],
        )
}

/// Whether `games` holds what the universe answer `j` holds, in order.
pub open spec fn games_details_match(j: Json, games: Seq<GameDetail>) -> bool {
    let items = spec_field_array(j, "data"@)->Some_0;
    &&& games.len() == items.len()
    &&& forall|i: int| 0 <= i < items.len() ==> #[trigger] game_detail_matches(items[i], games[i])
}

/// The outcome of a lookup of universe details.
pub fn games_details_from_response(request_result: Result<RawResponse, String>) -> (r: Result<
    Vec<GameDetail>,
    RobloxError,
>)
    ensures
        match spec_response_json(request_result) {
            Ok(j) => if games_details_ok(j) {
                r is Ok && games_details_match(j, r->Ok_0@)
            } else {
                r == Err::<Vec<GameDetail>, RobloxError>(RobloxError::MalformedResponse)
            },
            Err(e) => r == Err::<Vec<GameDetail>, RobloxError>(e),
        },
{
    let j = match response_json(request_result) {
        Ok(j) => j,
        Err(e) => return Err(e),
    };
    let Some(items) = field_array(&j, "data") else { return Err(RobloxError::MalformedResponse) };
    let ghost ok = |i: Json| game_detail_ok(i);
    let ghost fits = |i: Json, x: GameDetail| game_detail_matches(i, x);
    let games = decode_list_by(items, decode_game_detail, Ghost(ok), Ghost(fits));
    proof {
        assert forall|i: int| 0 <= i < items@.len() implies #[trigger] ok(items@[i])
            == game_detail_ok(items@[i]) by {}
        assert(spec_field_array(j, "data"@)->Some_0 == items@);
        if games is Some {
            let v = games->Some_0@;
            assert forall|i: int| 0 <= i < items@.len() implies game_detail_matches(
                items@[i],
                v[i],
            ) by {
                assert(fits(items@[i], v[i]));
            }
            assert forall|i: int| 0 <= i < items@.len() implies game_detail_ok(items@[i]) by {
                assert(ok(items@[i]));
            }
        } else {
            let w = choose|i: int| 0 <= i < items@.len() && !ok(items@[i]);
            assert(!game_detail_ok(spec_field_array(j, "data"@)->Some_0[w]));
        }
    }
    match games {
        Some(v) => Ok(v),
        None => Err(RobloxError::MalformedResponse),
    }
}

/// A place record.
pub open spec fn spec_place_details(j: Json) -> Option<PlaceDetails> {
    if spec_field_u64(j, "placeId"@) is Some && spec_field_str(j, "name"@) is Some
        && spec_field_str(j, "description"@) is Some && spec_field_str(j, "sourceName"@) is Some
        && spec_field_str(j, "sourceDescription"@) is Some && spec_field_str(j, "url"@) is Some
        && spec_field_bool(j, "isPlayable"@) is Some && spec_field_str(j, "reasonProhibited"@) is Some
        && spec_field_i32(j, "price"@) is Some && spec_field_str(j, "imageToken"@) is Some
        && spec_field_str(j, "builder"@) is Some && spec_field_u64(j, "builderId"@) is Some
        && spec_field_bool(j, "hasVerifiedBadge"@) is Some && spec_field_u64(j, "universeId"@) is Some
        && spec_field_u64(j, "universeRootPlaceId"@) is Some {
        Some(
            PlaceDetails {
                place_id: spec_field_u64(j, "placeId"@)->Some_0,
                name: spec_field_str(j, "name"@)->Some_0,
                description: spec_field_str(j, "description"@)->Some_0,
                source_name: spec_field_str(j, "sourceName"@)->Some_0,
                source_description: spec_field_str(j, "sourceDescription"@)->Some_0,
                url: spec_field_str(j, "url"@)->Some_0,
                is_playable: spec_field_bool(j, "isPlayable"@)->Some_0,
                reason_prohibited: spec_field_str(j, "reasonProhibited"@)->Some_0,
                price: spec_field_i32(j, "price"@)->Some_0,
                image_token: spec_field_str(j, "imageToken"@)->Some_0,
                builder: spec_field_str(j, "builder"@)->Some_0,
                builder_id: spec_field_u64(j, "builderId"@)->Some_0,
                has_verified_badge: spec_field_bool(j, "hasVerifiedBadge"@)->Some_0,
                universe_id: spec_field_u64(j, "universeId"@)->Some_0,
                universe_root_place_id: spec_field_u64(j, "universeRootPlaceId"@)->Some_0,
            },
        )
    } else {
        None
    }
}

/// Decodes a place record.
pub fn decode_place_details(j: &Json) -> (r: Option<PlaceDetails>)
    ensures
        r == spec_place_details(*j),
{
    let Some(place_id) = field_u64(j, "placeId") else { return None };
    let Some(name) = field_str(j, "name") else { return None };
    let Some(description) = field_str(j, "description") else { return None };
    let Some(source_name) = field_str(j, "sourceName") else { return None };
    let Some(source_description) = field_str(j, "sourceDescription") else { return None };
    let Some(url) = field_str(j, "url") else { return None };
    let Some(is_playable) = field_bool(j, "isPlayable") else { return None };
    let Some(reason_prohibited) = field_str(j, "reasonProhibited") else { return None };
    let Some(price) = field_i32(j, "price") else { return None };
    let Some(image_token) = field_str(j, "imageToken") else { return None };
    let Some(builder) = field_str(j, "builder") else { return None };
    let Some(builder_id) = field_u64(j, "builderId") else { return None };
    let Some(has_verified_badge) = field_bool(j, "hasVerifiedBadge") else { return None };
    let Some(universe_id) = field_u64(j, "universeId") else { return None };
    let Some(universe_root_place_id) = field_u64(j, "universeRootPlaceId") else { return None };
    Some(
        PlaceDetails {
            place_id,
            name,
            description,
            source_name,
            source_description,
            url,
            is_playable,
            reason_prohibited,
            price,
            image_token,
            builder,
            builder_id,
            has_verified_badge,
            universe_id,
            universe_root_place_id,
        },
    )
}

/// The places of a place answer, which is an array.
pub open spec fn spec_places(j: Json) -> Option<Seq<PlaceDetails>> {
    match j {
        Json::Array(items) => decode_each(items@, |i: Json| spec_place_details(i)),
        _ => None,
    }
}

/// The outcome of a lookup of place details.
pub fn place_details_bulk_from_response(request_result: Result<RawResponse, String>) -> (r:
    Result<Vec<PlaceDetails>, RobloxError>)
    ensures
        view_ok(r) == match spec_response_json(request_result) {
            Ok(j) => or_malformed(spec_places(j)),
            Err(e) => Err(e),
        },
{
    let j = match response_json(request_result) {
        Ok(j) => j,
        Err(e) => return Err(e),
    };
    let Json::Array(items) = &j else { return Err(RobloxError::MalformedResponse) };
    let places = decode_list(items, decode_place_details, Ghost(|i: Json| spec_place_details(i)));
    proof {
        lemma_decode_each_ext(
            items@,
            |i: Json| spec_place_details(i),
            |i: Json| spec_place_details(i),
        );
    }
    match places {
        Some(v) => Ok(v),
        None => Err(RobloxError::MalformedResponse),
    }
}

/// A media record; an unknown media kind makes it malformed.
pub open spec fn spec_game_media(j: Json) -> Option<GameMedia> {
    if spec_field_u64(j, "assetTypeId"@) is Some && spec_field_str(j, "assetType"@) is Some
        && GameMediaType::spec_try_from(spec_field_str(j, "assetType"@)->Some_0) is Ok
        && spec_field_bool(j, "approved"@) is Some && spec_field_opt_u64(j, "imageId"@) is Some
        && spec_field_opt_str(j, "altText"@) is Some && spec_field_opt_str(j, "videoHash"@) is Some
        && spec_field_opt_str(j, "videoTitle"@) is Some {
        Some(
            GameMedia {
                asset_type_id: spec_field_u64(j, "assetTypeId"@)->Some_0,
                asset_type: GameMediaType::spec_try_from(
                    spec_field_str(j, "assetType"@)->Some_0,
                )->Ok_0,
                approved: spec_field_bool(j, "approved"@)->Some_0,
                image_id: spec_field_opt_u64(j, "imageId"@)->Some_0,
                alt_text: spec_field_opt_str(j, "altText"@)->Some_0,
                video_hash: spec_field_opt_str(j, "videoHash"@)->Some_0,
                video_title: spec_field_opt_str(j, "videoTitle"@)->Some_0,
            },
        )
    } else {
        None
    }
}

/// Decodes a media record.
pub fn decode_game_media(j: &Json) -> (r: Option<GameMedia>)
    ensures
        r == spec_game_media(*j),
{
    let Some(asset_type_id) = field_u64(j, "assetTypeId") else { return None };
    let Some(kind) = field_str(j, "assetType") else { return None };
    let Ok(asset_type) = GameMediaType::try_from(kind) else { return None };
    let Some(approved) = field_bool(j, "approved") else { return None };
    let Some(image_id) = field_opt_u64(j, "imageId") else { return None };
    let Some(alt_text) = field_opt_str(j, "altText") else { return None };
    let Some(video_hash) = field_opt_str(j, "videoHash") else { return None };
    let Some(video_title) = field_opt_str(j, "videoTitle") else { return None };
    Some(
        GameMedia {
            asset_type_id,
            asset_type,
            approved,
            image_id,
            alt_text,
            video_hash,
            video_title,
        },
    )
}

/// The media of a media answer `{"data": [..]}`.
pub open spec fn spec_game_media_list(j: Json) -> Option<Seq<GameMedia>> {
    match spec_field_array(j, "data"@) {
        Some(items) => decode_each(items, |i: Json| spec_game_media(i)),
        None => None,
    }
}

/// The outcome of a lookup of the media of a game.
pub fn game_media_from_response(request_result: Result<RawResponse, String>) -> (r: Result<
    Vec<GameMedia>,
    RobloxError,
>)
    ensures
        view_ok(r) == match spec_response_json(request_result) {
            Ok(j) => or_malformed(spec_game_media_list(j)),
            Err(e) => Err(e),
        },
{
    let j = match response_json(request_result) {
        Ok(j) => j,
        Err(e) => return Err(e),
    };
    let Some(items) = field_array(&j, "data") else { return Err(RobloxError::MalformedResponse) };
    let media = decode_list(items, decode_game_media, Ghost(|i: Json| spec_game_media(i)));
    proof {
        lemma_decode_each_ext(items@, |i: Json| spec_game_media(i), |i: Json| spec_game_media(i));
    }
    match media {
        Some(v) => Ok(v),
        None => Err(RobloxError::MalformedResponse),
    }
}

} // verus!
