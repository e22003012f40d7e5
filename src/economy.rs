//! Economy: the Robux balance, resale listings, sales and purchases.
use vstd::prelude::*;

use crate::error::{PurchaseTradableLimitedError, RobloxError};
use crate::json::{
    decode_each, decode_list, field, field_array, field_bool, field_opt_str, field_opt_u64,
    field_str, field_u64, spec_field, spec_field_array, spec_field_bool, spec_field_opt_str,
    spec_field_opt_u64, spec_field_str, spec_field_u64, text_is, Json,
};
use crate::validation::{
    lemma_decode_each_ext, or_malformed, response_json, spec_response_json, RawResponse,
};

verus! {

/// The seller of a resale listing.
#[derive(Clone, Debug, PartialEq, Eq)]
pub struct Reseller {
    pub user_id: u64,
    pub name: String,
}

/// A resale listing of a limited item.
#[derive(Clone, Debug, PartialEq, Eq)]
pub struct Listing {
    /// The unique asset id of the copy.
    pub uaid: u64,
    pub price: u64,
    pub reseller: Reseller,
    /// The serial number; only Limited U items have one.
    pub serial_number: Option<u64>,
}

/// A sale from the account's transaction history.
#[derive(Clone, Debug, PartialEq, Eq)]
pub struct UserSale {
    pub sale_id: u64,
    pub is_pending: bool,
    /// The buyer.
    pub user_id: u64,
    pub user_display_name: String,
    /// What the account received after tax.
    pub robux_received: u64,
    pub asset_id: u64,
    pub asset_name: String,
}

/// The Robux balance of a currency answer `{"robux": n}`.
pub open spec fn spec_robux(j: Json) -> Option<u64> {
    spec_field_u64(j, "robux"@)
}

/// The outcome of a balance lookup.
pub fn robux_from_response(request_result: Result<RawResponse, String>) -> (r: Result<
    u64,
    RobloxError,
>)
    ensures
        r == match spec_response_json(request_result) {
            Ok(j) => or_malformed(spec_robux(j)),
            Err(e) => Err(e),
        },
{
    let j = match response_json(request_result) {
        Ok(j) => j,
        Err(e) => return Err(e),
    };
    match field_u64(&j, "robux") {
        Some(robux) => Ok(robux),
        None => Err(RobloxError::MalformedResponse),
    }
}

/// The seller object `{"id", "name"}` of a listing.
pub open spec fn spec_reseller(j: Json) -> Option<Reseller> {
    if spec_field_u64(j, "id"@) is Some && spec_field_str(j, "name"@) is Some {
        Some(
            Reseller {
                user_id: spec_field_u64(j, "id"@)->Some_0,
                name: spec_field_str(j, "name"@)->Some_0,
            },
        )
    } else {
        None
    }
}

/// A listing `{"userAssetId", "seller", "price", "serialNumber"}`.
pub open spec fn spec_listing(j: Json) -> Option<Listing> {
    match spec_field(j, "seller"@) {
        Some(s) => if spec_field_u64(j, "userAssetId"@) is Some && spec_reseller(s) is Some
            && spec_field_u64(j, "price"@) is Some && spec_field_opt_u64(j, "serialNumber"@) is Some {
            Some(
                Listing {
                    uaid: spec_field_u64(j, "userAssetId"@)->Some_0,
                    price: spec_field_u64(j, "price"@)->Some_0,
                    reseller: spec_reseller(s)->Some_0,
                    serial_number: spec_field_opt_u64(j, "serialNumber"@)->Some_0,
                },
            )
        } else {
            None
        },
        None => None,
    }
}

/// Decodes a listing.
pub fn decode_listing(j: &Json) -> (r: Option<Listing>)
    ensures
        r == spec_listing(*j),
{
    let Some(s) = field(j, "seller") else { return None };
    let Some(uaid) = field_u64(j, "userAssetId") else { return None };
    let Some(user_id) = field_u64(s, "id") else { return None };
    let Some(name) = field_str(s, "name") else { return None };
    let Some(price) = field_u64(j, "price") else { return None };
    let Some(serial_number) = field_opt_u64(j, "serialNumber") else { return None };
    Some(Listing { uaid, price, reseller: Reseller { user_id, name }, serial_number })
}

/// A page `{"data": [..], "nextPageCursor"}`, its items decoded by `f`.
pub open spec fn spec_page<X>(j: Json, f: spec_fn(Json) -> Option<X>) -> Option<
    (Seq<X>, Option<String>),
> {
    match (spec_field_array(j, "data"@), spec_field_opt_str(j, "nextPageCursor"@)) {
        (Some(items), Some(cursor)) => match decode_each(items, f) {
            Some(v) => Some((v, cursor)),
            None => None,
        },
        _ => None,
    }
}

/// A page result, with the vector seen as a sequence.
pub open spec fn view_page<X>(r: Result<(Vec<X>, Option<String>), RobloxError>) -> Result<
    (Seq<X>, Option<String>),
    RobloxError,
> {
    match r {
        Ok((v, c)) => Ok((v@, c)),
        Err(e) => Err(e),
    }
}

/// The outcome of a lookup of resale listings, with the cursor of the next
/// page.
pub fn resellers_from_response(request_result: Result<RawResponse, String>) -> (r: Result<
    (Vec<Listing>, Option<String>),
    RobloxError,
>)
    ensures
        view_page(r) == match spec_response_json(request_result) {
            Ok(j) => or_malformed(spec_page(j, |i: Json| spec_listing(i))),
            Err(e) => Err(e),
        },
{
    let j = match response_json(request_result) {
        Ok(j) => j,
        Err(e) => return Err(e),
    };
    let Some(items) = field_array(&j, "data") else { return Err(RobloxError::MalformedResponse) };
    let Some(cursor) = field_opt_str(&j, "nextPageCursor") else {
        return Err(RobloxError::MalformedResponse)
    };
    let listings = decode_list(items, decode_listing, Ghost(|i: Json| spec_listing(i)));
    proof {
        lemma_decode_each_ext(items@, |i: Json| spec_listing(i), |i: Json| spec_listing(i));
    }
    match listings {
        Some(v) => Ok((v, cursor)),
        None => Err(RobloxError::MalformedResponse),
    }
}

/// A transaction `{"id", "isPending", "agent": {"id", "name"}, "details":
/// {"id", "name"}, "currency": {"amount"}}`.
pub open spec fn spec_user_sale(j: Json) -> Option<UserSale> {
    match (spec_field(j, "agent"@), spec_field(j, "details"@), spec_field(j, "currency"@)) {
        (Some(agent), Some(details), Some(currency)) => if spec_field_u64(j, "id"@) is Some
            && spec_field_bool(j, "isPending"@) is Some && spec_field_u64(agent, "id"@) is Some
            && spec_field_str(agent, "name"@) is Some && spec_field_u64(details, "id"@) is Some
            && spec_field_str(details, "name"@) is Some && spec_field_u64(currency, "amount"@) is Some {
            Some(
                UserSale {
                    sale_id: spec_field_u64(j, "id"@)->Some_0,
                    is_pending: spec_field_bool(j, "isPending"@)->Some_0,
                    user_id: spec_field_u64(agent, "id"@)->Some_0,
                    user_display_name: spec_field_str(agent, "name"@)->Some_0,
                    robux_received: spec_field_u64(currency, "amount"@)->Some_0,
                    asset_id: spec_field_u64(details, "id"@)->Some_0,
                    asset_name: spec_field_str(details, "name"@)->Some_0,
                },
            )
        } else {
            None
        },
        _ => None,
    }
}

/// Decodes a transaction.
pub fn decode_user_sale(j: &Json) -> (r: Option<UserSale>)
    ensures
        r == spec_user_sale(*j),
{
    let Some(agent) = field(j, "agent") else { return None };
    let Some(details) = field(j, "details") else { return None };
    let Some(currency) = field(j, "currency") else { return None };
    let Some(sale_id) = field_u64(j, "id") else { return None };
    let Some(is_pending) = field_bool(j, "isPending") else { return None };
    let Some(user_id) = field_u64(agent, "id") else { return None };
    let Some(user_display_name) = field_str(agent, "name") else { return None };
    let Some(asset_id) = field_u64(details, "id") else { return None };
    let Some(asset_name) = field_str(details, "name") else { return None };
    let Some(robux_received) = field_u64(currency, "amount") else { return None };
    Some(
        UserSale {
            sale_id,
            is_pending,
            user_id,
            user_display_name,
            robux_received,
            asset_id,
            asset_name,
        },
    )
}

/// The outcome of a lookup of the account's sales, with the cursor of the
/// next page.
pub fn user_sales_from_response(request_result: Result<RawResponse, String>) -> (r: Result<
    (Vec<UserSale>, Option<String>),
    RobloxError,
>)
    ensures
        view_page(r) == match spec_response_json(request_result) {
            Ok(j) => or_malformed(spec_page(j, |i: Json| spec_user_sale(i))),
            Err(e) => Err(e),
        },
{
    let j = match response_json(request_result) {
        Ok(j) => j,
        Err(e) => return Err(e),
    };
    let Some(items) = field_array(&j, "data") else { return Err(RobloxError::MalformedResponse) };
    let Some(cursor) = field_opt_str(&j, "nextPageCursor") else {
        return Err(RobloxError::MalformedResponse)
    };
    let sales = decode_list(items, decode_user_sale, Ghost(|i: Json| spec_user_sale(i)));
    proof {
        lemma_decode_each_ext(items@, |i: Json| spec_user_sale(i), |i: Json| spec_user_sale(i));
    }
    match sales {
        Some(v) => Ok((v, cursor)),
        None => Err(RobloxError::MalformedResponse),
    }
}

/// What a purchase answer means: success where `purchased` holds, else the
/// refusal that Roblox's message names.
pub open spec fn spec_purchase_outcome(purchased: bool, error_msg: String) -> Result<
    (),
    RobloxError,
> {
    if purchased {
        Ok(())
    } else {
        Err(
            RobloxError::PurchaseTradableLimitedError(
                if error_msg@
                    == "You have a pending transaction. Please wait 1 minute and try again."@ {
                    PurchaseTradableLimitedError::PendingTransaction
                } else if error_msg@ == "You already own this item."@ {
                    PurchaseTradableLimitedError::CannotBuyOwnItem
                } else if error_msg@ == "This item is not for sale."@ {
                    PurchaseTradableLimitedError::ItemNotForSale
                } else if error_msg@ == "You do not have enough Robux to purchase this item."@ {
                    PurchaseTradableLimitedError::NotEnoughRobux
                } else if error_msg@ == "This item has changed price. Please try again."@ {
                    PurchaseTradableLimitedError::PriceChanged
                } else {
                    PurchaseTradableLimitedError::UnknownRobloxErrorMsg(error_msg)
                },
            ),
        )
    }
}

/// Maps a purchase answer to its outcome.
pub fn purchase_outcome(purchased: bool, error_msg: String) -> (r: Result<(), RobloxError>)
    ensures
        r == spec_purchase_outcome(purchased, error_msg),
{
    if purchased {
        return Ok(());
    }
    let e = if text_is(
        &error_msg,
        "You have a pending transaction. Please wait 1 minute and try again.",
    ) {
        PurchaseTradableLimitedError::PendingTransaction
    } else if text_is(&error_msg, "You already own this item.") {
        PurchaseTradableLimitedError::CannotBuyOwnItem
    } else if text_is(&error_msg, "This item is not for sale.") {
        PurchaseTradableLimitedError::ItemNotForSale
    } else if text_is(&error_msg, "You do not have enough Robux to purchase this item.") {
        PurchaseTradableLimitedError::NotEnoughRobux
    } else if text_is(&error_msg, "This item has changed price. Please try again.") {
        PurchaseTradableLimitedError::PriceChanged
    } else {
        PurchaseTradableLimitedError::UnknownRobloxErrorMsg(error_msg)
    };
    Err(RobloxError::PurchaseTradableLimitedError(e))
}

/// The outcome of a purchase answer `{"purchased", "errorMsg"}`.
pub open spec fn spec_purchase(j: Json) -> Result<(), RobloxError> {
    if spec_field_bool(j, "purchased"@) is Some && spec_field_str(j, "errorMsg"@) is Some {
        spec_purchase_outcome(
            spec_field_bool(j, "purchased"@)->Some_0,
            spec_field_str(j, "errorMsg"@)->Some_0,
        )
    } else {
        Err(RobloxError::MalformedResponse)
    }
}

/// The outcome of a purchase of a tradable limited item.
pub fn purchase_from_response(request_result: Result<RawResponse, String>) -> (r: Result<
    (),
    RobloxError,
>)
    ensures
        r == match spec_response_json(request_result) {
            Ok(j) => spec_purchase(j),
            Err(e) => Err(e),
        },
{
    let j = match response_json(request_result) {
        Ok(j) => j,
        Err(e) => return Err(e),
    };
    let Some(purchased) = field_bool(&j, "purchased") else {
        return Err(RobloxError::MalformedResponse)
    };
    let Some(error_msg) = field_str(&j, "errorMsg") else {
        return Err(RobloxError::MalformedResponse)
    };
    purchase_outcome(purchased, error_msg)
}

} // verus!
