use roblox_session::discovery::{omni_recommendations_from_response, TreatmentType};
use roblox_session::economy::{
    purchase_from_response, purchase_outcome, resellers_from_response, user_sales_from_response,
    Listing, Reseller, UserSale,
};
use roblox_session::error::{PurchaseTradableLimitedError, RobloxError};
use roblox_session::friends::{
    friend_presence, friend_requests_from_response, friends_list_from_response,
    pending_friend_requests_from_response,
};
use roblox_session::games::{
    first_or_bad_request, game_media_from_response, games_details_from_response, place_details_bulk_from_response,
    AvatarType, GameMediaType, ServerType, SortOrder,
};
use roblox_session::presence::{presences_from_response, PresenceType};
use roblox_session::search::omni_search_from_response;
use roblox_session::users::{
    user_details_from_response, user_search_from_response, username_user_details_from_response,
};
use roblox_session::types::{tray_action, tray_item_id, TrayAction};
use roblox_session::validation::RawResponse;
use roblox_session::{Limit, User};

fn ok(body: &str) -> Result<RawResponse, String> {
    Ok(RawResponse { status: 200, xcsrf: None, body: body.as_bytes().to_vec() })
}

#[test]
fn limit_counts() {
    assert_eq!(Limit::Ten.to_u64(), 10);
    assert_eq!(Limit::TwentyFive.to_u64(), 25);
    assert_eq!(Limit::Fifty.to_u64(), 50);
    assert_eq!(Limit::Hundred.to_u64(), 100);
    assert_eq!(Limit::default(), Limit::Ten);
}

#[test]
fn presence_codes() {
    assert_eq!(PresenceType::try_from(0), Ok(PresenceType::Offline));
    assert_eq!(PresenceType::try_from(2), Ok(PresenceType::InGame));
    assert_eq!(PresenceType::try_from(4), Ok(PresenceType::Invisible));
    assert_eq!(PresenceType::try_from(5), Err(RobloxError::MalformedResponse));
    assert_eq!(PresenceType::try_from(-1), Err(RobloxError::MalformedResponse));
    assert_eq!(friend_presence(None), PresenceType::Offline);
    assert_eq!(friend_presence(Some(9)), PresenceType::Offline);
    assert_eq!(friend_presence(Some(3)), PresenceType::InStudio);
}

#[test]
fn enum_names_are_matched_exactly() {
    assert_eq!(AvatarType::try_from("MorphToR15".to_string()), Ok(AvatarType::MorphToR15));
    assert_eq!(AvatarType::try_from("morphtor15".to_string()), Err(RobloxError::MalformedResponse));
    assert_eq!(GameMediaType::try_from("YouTubeVideo".to_string()), Ok(GameMediaType::YouTubeVideo));
    assert_eq!(GameMediaType::try_from("Video".to_string()), Err(RobloxError::MalformedResponse));
    assert_eq!(ServerType::query_code(None), 0);
    assert_eq!(ServerType::query_code(Some(ServerType::Friends)), 1);
    assert_eq!(SortOrder::query_code(None), 2);
    assert_eq!(SortOrder::query_code(Some(SortOrder::Ascending)), 1);
}

#[test]
fn purchase_messages_map_to_errors() {
    let refused = |m: &str| purchase_outcome(false, m.to_string());
    assert_eq!(purchase_outcome(true, "anything".to_string()), Ok(()));
    assert_eq!(
        refused("You already own this item."),
        Err(RobloxError::PurchaseTradableLimitedError(PurchaseTradableLimitedError::CannotBuyOwnItem))
    );
    assert_eq!(
        refused("You have a pending transaction. Please wait 1 minute and try again."),
        Err(RobloxError::PurchaseTradableLimitedError(PurchaseTradableLimitedError::PendingTransaction))
    );
    assert_eq!(
        refused("This item is not for sale."),
        Err(RobloxError::PurchaseTradableLimitedError(PurchaseTradableLimitedError::ItemNotForSale))
    );
    assert_eq!(
        refused("You do not have enough Robux to purchase this item."),
        Err(RobloxError::PurchaseTradableLimitedError(PurchaseTradableLimitedError::NotEnoughRobux))
    );
    assert_eq!(
        refused("This item has changed price. Please try again."),
        Err(RobloxError::PurchaseTradableLimitedError(PurchaseTradableLimitedError::PriceChanged))
    );
    assert_eq!(
        refused("Something else"),
        Err(RobloxError::PurchaseTradableLimitedError(
            PurchaseTradableLimitedError::UnknownRobloxErrorMsg("Something else".to_string())
        ))
    );
    assert_eq!(
        purchase_from_response(ok("{\"purchased\":false,\"errorMsg\":\"This item is not for sale.\"}")),
        Err(RobloxError::PurchaseTradableLimitedError(PurchaseTradableLimitedError::ItemNotForSale))
    );
    assert_eq!(purchase_from_response(ok("{\"purchased\":true,\"errorMsg\":\"\"}")), Ok(()));
    assert_eq!(purchase_from_response(ok("{\"purchased\":true}")), Err(RobloxError::MalformedResponse));
}

#[test]
fn resellers_page_is_decoded() {
    let body = "{\"previousPageCursor\":null,\"nextPageCursor\":\"abc\",\"data\":[\
        {\"userAssetId\":11,\"seller\":{\"hasVerifiedBadge\":false,\"id\":5,\"type\":\"User\",\"name\":\"bob\"},\"price\":300,\"serialNumber\":null},\
        {\"userAssetId\":12,\"seller\":{\"id\":6,\"name\":\"amy\"},\"price\":310,\"serialNumber\":4}]}";
    let (listings, cursor) = resellers_from_response(ok(body)).unwrap();
    assert_eq!(cursor, Some("abc".to_string()));
    assert_eq!(
        listings,
        vec![
            Listing { uaid: 11, price: 300, reseller: Reseller { user_id: 5, name: "bob".to_string() }, serial_number: None },
            Listing { uaid: 12, price: 310, reseller: Reseller { user_id: 6, name: "amy".to_string() }, serial_number: Some(4) },
        ]
    );
    let bad = "{\"nextPageCursor\":null,\"data\":[{\"userAssetId\":11,\"price\":300}]}";
    assert_eq!(resellers_from_response(ok(bad)), Err(RobloxError::MalformedResponse));
}

#[test]
fn user_sales_page_is_decoded() {
    let body = "{\"nextPageCursor\":null,\"data\":[{\"id\":9,\"isPending\":true,\
        \"agent\":{\"id\":44,\"type\":\"User\",\"name\":\"Buyer\"},\
        \"details\":{\"id\":1000,\"name\":\"Hat\",\"type\":\"Asset\"},\
        \"currency\":{\"amount\":70,\"type\":\"Robux\"}}]}";
    let (sales, cursor) = user_sales_from_response(ok(body)).unwrap();
    assert_eq!(cursor, None);
    assert_eq!(
        sales,
        vec![UserSale {
            sale_id: 9,
            is_pending: true,
            user_id: 44,
            user_display_name: "Buyer".to_string(),
            robux_received: 70,
            asset_id: 1000,
            asset_name: "Hat".to_string(),
        }]
    );
}

#[test]
fn presences_are_decoded_and_unknown_code_is_malformed() {
    let body = "{\"userPresences\":[{\"userPresenceType\":2,\"lastLocation\":\"Game\",\"placeId\":77,\
        \"rootPlaceId\":77,\"gameId\":\"g-1\",\"universeId\":88,\"userId\":1,\"lastOnline\":\"2024-01-01\"}]}";
    let presences = presences_from_response(ok(body)).unwrap();
    assert_eq!(presences.len(), 1);
    assert_eq!(presences[0].user_id, 1);
    assert_eq!(presences[0].presence_type, PresenceType::InGame);
    assert_eq!(presences[0].place_id, Some(77));
    assert_eq!(presences[0].game_id, Some("g-1".to_string()));
    assert_eq!(presences[0].universe_id, Some(88));
    let unknown = "{\"userPresences\":[{\"userPresenceType\":9,\"lastLocation\":\"\",\"userId\":1,\"lastOnline\":\"x\"}]}";
    assert_eq!(presences_from_response(ok(unknown)), Err(RobloxError::MalformedResponse));
}

#[test]
fn friends_list_defaults_unknown_presence_to_offline() {
    let body = "{\"data\":[{\"id\":3,\"name\":\"c\",\"displayName\":\"C\",\"description\":null,\
        \"created\":\"2020\",\"presenceType\":7,\"isBanned\":false,\"hasVerifiedBadge\":true},\
        {\"id\":4,\"name\":\"d\",\"displayName\":\"D\",\"description\":\"hi\",\
        \"created\":\"2021\",\"presenceType\":1,\"isBanned\":true,\"hasVerifiedBadge\":false}]}";
    let friends = friends_list_from_response(ok(body)).unwrap();
    assert_eq!(friends.len(), 2);
    assert_eq!(friends[0].presence_type, PresenceType::Offline);
    assert_eq!(friends[0].description, None);
    assert_eq!(friends[1].presence_type, PresenceType::Online);
    assert_eq!(friends[1].description, Some("hi".to_string()));
    assert!(friends[1].is_terminated);
}

#[test]
fn friend_requests_page_is_decoded() {
    let body = "{\"nextPageCursor\":\"n2\",\"data\":[{\"friendRequest\":{\"sentAt\":\"t\",\"senderId\":5,\
        \"sourceUniverseId\":0,\"originSourceType\":\"UserProfile\"},\"mutualFriendsList\":[\"x\",\"y\"],\
        \"hasVerifiedBadge\":false,\"description\":\"\",\"created\":\"c\",\"isBanned\":false,\
        \"id\":5,\"name\":\"e\",\"displayName\":\"E\"}]}";
    let (requests, cursor) = friend_requests_from_response(ok(body)).unwrap();
    assert_eq!(cursor, Some("n2".to_string()));
    assert_eq!(requests.len(), 1);
    assert_eq!(requests[0].user_id, 5);
    assert_eq!(requests[0].mutual_friends_list, vec!["x".to_string(), "y".to_string()]);
    assert_eq!(requests[0].origin_source_type, "UserProfile");
    assert_eq!(requests[0].source_universe_id, 0);
    assert_eq!(requests[0].sent_at, "t");
    assert_eq!(pending_friend_requests_from_response(ok("{\"count\":3}")), Ok(3));
}

#[test]
fn users_are_decoded() {
    let search = "{\"data\":[{\"previousUsernames\":[],\"hasVerifiedBadge\":false,\"id\":8,\"name\":\"h\",\"displayName\":\"H\"}]}";
    assert_eq!(
        user_search_from_response(ok(search)),
        Ok(vec![User { user_id: 8, username: "h".to_string(), display_name: "H".to_string() }])
    );
    let details = "{\"description\":\"d\",\"created\":\"2019\",\"isBanned\":false,\"hasVerifiedBadge\":true,\
        \"id\":8,\"name\":\"h\",\"displayName\":\"H\"}";
    let d = user_details_from_response(ok(details)).unwrap();
    assert_eq!(d.id, 8);
    assert_eq!(d.created_at, "2019");
    assert!(d.has_verified_badge);
    let by_name = "{\"data\":[{\"requestedUsername\":\"H\",\"hasVerifiedBadge\":false,\"id\":8,\"name\":\"h\",\"displayName\":\"H\"}]}";
    let v = username_user_details_from_response(ok(by_name)).unwrap();
    assert_eq!(v[0].requested_username, "H");
    assert_eq!(v[0].username, "h");
}

#[test]
fn games_are_decoded() {
    let game = "{\"data\":[{\"id\":1,\"rootPlaceId\":2,\"name\":\"n\",\"description\":\"d\",\"sourceName\":\"sn\",\
        \"sourceDescription\":\"sd\",\"creator\":{\"id\":3,\"name\":\"c\",\"type\":\"User\",\"isRNVAccount\":false,\
        \"hasVerifiedBadge\":true},\"price\":null,\"allowedGearGenres\":[\"All\"],\"allowedGearCategories\":[],\
        \"isGenreEnforced\":false,\"copyingAllowed\":false,\"playing\":10,\"visits\":20,\"maxPlayers\":30,\
        \"created\":\"c1\",\"updated\":\"u1\",\"studioAccessToApisAllowed\":false,\"createVipServersAllowed\":true,\
        \"universeAvatarType\":\"MorphToR6\",\"genre\":\"All\",\"isAllGenre\":true,\"isFavoritedByUser\":false,\
        \"favoritedCount\":5}]}";
    let games = games_details_from_response(ok(game)).unwrap();
    assert_eq!(games.len(), 1);
    assert_eq!(games[0].universe_id, 1);
    assert_eq!(games[0].creator.creator_type, "User");
    assert_eq!(games[0].allowed_gear_genres, vec!["All".to_string()]);
    assert_eq!(games[0].universe_avatar_type, AvatarType::MorphToR6);
    assert_eq!(games[0].price, None);
    let unknown_avatar = game.replace("MorphToR6", "MorphToR99");
    assert_eq!(games_details_from_response(ok(&unknown_avatar)), Err(RobloxError::MalformedResponse));

    let place = "[{\"placeId\":2,\"name\":\"p\",\"description\":\"\",\"sourceName\":\"p\",\"sourceDescription\":\"\",\
        \"url\":\"u\",\"builder\":\"b\",\"builderId\":3,\"hasVerifiedBadge\":false,\"isPlayable\":true,\
        \"reasonProhibited\":\"None\",\"universeId\":1,\"universeRootPlaceId\":2,\"price\":-1,\"imageToken\":\"i\"}]";
    let places = place_details_bulk_from_response(ok(place)).unwrap();
    assert_eq!(places[0].price, -1);
    assert_eq!(places[0].universe_root_place_id, 2);

    let media = "{\"data\":[{\"assetTypeId\":1,\"assetType\":\"Image\",\"imageId\":9,\"approved\":true,\"altText\":null}]}";
    let m = game_media_from_response(ok(media)).unwrap();
    assert_eq!(m[0].asset_type, GameMediaType::Image);
    assert_eq!(m[0].image_id, Some(9));
    assert_eq!(m[0].video_hash, None);
}

#[test]
fn search_takes_first_content_of_each_group() {
    let content = |id: u64| format!(
        "{{\"universeId\":{id},\"name\":\"g{id}\",\"description\":\"\",\"playerCount\":1,\"totalUpVotes\":2,\
        \"totalDownVotes\":3,\"emphasis\":false,\"isSponsored\":false,\"creatorId\":4,\"creatorName\":\"c\",\
        \"creatorHasVerifiedBadge\":false,\"rootPlaceId\":5,\"minimumAge\":0,\"ageRecommendationDisplayName\":\"All\",\
        \"contentType\":\"Game\",\"contentId\":{id}}}"
    );
    let body = format!(
        "{{\"searchResults\":[{{\"contentGroupType\":\"Game\",\"contents\":[{},{}],\"topicId\":\"t\"}}],\
        \"nextPageToken\":\"\",\"vertical\":\"all\"}}",
        content(10),
        content(11)
    );
    let results = omni_search_from_response(ok(&body)).unwrap();
    assert_eq!(results.len(), 1);
    assert_eq!(results[0].universe_id, 10);
    assert_eq!(results[0].name, "g10");
    let empty = "{\"searchResults\":[{\"contentGroupType\":\"Game\",\"contents\":[],\"topicId\":\"t\"}],\
        \"nextPageToken\":\"\",\"vertical\":\"all\"}";
    assert_eq!(omni_search_from_response(ok(empty)), Err(RobloxError::MalformedResponse));
}

#[test]
fn recommendations_skip_topics_without_list_and_resolve_metadata() {
    let body = "{\"sorts\":[\
        {\"topic\":\"Friends\",\"subtitle\":null,\"topicId\":1,\"treatmentType\":\"FriendCarousel\",\
         \"recommendationList\":null,\"numberOfRows\":1},\
        {\"topic\":\"Top\",\"topicId\":2,\"treatmentType\":\"Carousel\",\"numberOfRows\":1,\
         \"recommendationList\":[{\"contentType\":\"Game\",\"contentId\":42,\"contentStringId\":\"\"}]}],\
        \"contentMetadata\":{\"Game\":{\"42\":{\"universeId\":42,\"rootPlaceId\":420,\"name\":\"G\",\
         \"description\":null,\"totalUpVotes\":5,\"totalDownVotes\":1,\"playerCount\":9}}}}";
    let topics = omni_recommendations_from_response(ok(body)).unwrap();
    assert_eq!(topics.len(), 1);
    assert_eq!(topics[0].topic_id, 2);
    assert_eq!(topics[0].topic, Some("Top".to_string()));
    assert_eq!(topics[0].subtitle, None);
    assert_eq!(topics[0].treatment_type, TreatmentType::Carousel);
    assert_eq!(topics[0].recommendation_list.len(), 1);
    assert_eq!(topics[0].recommendation_list[0].root_place_id, 420);
    assert_eq!(topics[0].recommendation_list[0].player_count, 9);
    let missing = body.replace("\"42\":{", "\"43\":{");
    assert_eq!(omni_recommendations_from_response(ok(&missing)), Err(RobloxError::MalformedResponse));
    let bad_layout = body.replace("\"Carousel\"", "\"Wall\"");
    assert_eq!(omni_recommendations_from_response(ok(&bad_layout)), Err(RobloxError::MalformedResponse));
    assert_eq!(TreatmentType::try_from("SortlessGrid".to_string()), Ok(TreatmentType::SortlessGrid));
}

#[test]
fn tray_items_name_and_read_back_places() {
    assert_eq!(tray_item_id(42), "game-42");
    assert_eq!(tray_item_id(0), "game-0");
    assert_eq!(tray_action("game-42"), TrayAction::OpenPlace(42));
    assert_eq!(tray_action(&tray_item_id(u64::MAX)), TrayAction::OpenPlace(u64::MAX));
    assert_eq!(tray_action("quit"), TrayAction::Quit);
    assert_eq!(tray_action("game-"), TrayAction::Nothing);
    assert_eq!(tray_action("game-4x"), TrayAction::Nothing);
    assert_eq!(tray_action("settings"), TrayAction::Nothing);
}

#[test]
fn single_lookup_takes_the_first_record() {
    assert_eq!(first_or_bad_request(vec![3, 4]), Ok(3));
    assert_eq!(first_or_bad_request(Vec::<u8>::new()), Err(RobloxError::BadRequest));
}
