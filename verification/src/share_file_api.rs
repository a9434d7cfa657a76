//! The requests of the share endpoints.

use crate::config::{PlatformConfig, PlatformConfigView};
use crate::file_api::some_int_i64;
use crate::request::{
    all_values_present, authorized, authorized_request, lemma_numerals_not_empty, names_of,
    no_pairs, number_pair, optional_number, push_optional_signed, push_unsigned, ApiRequest,
    ApiRequestView, Method, Pairs, Payload, PayloadView,
};
use crate::share_file_config::{PayLinkItem, ShareItem, ShareLinkItem, ShareQuery};
use crate::token::{AccessToken, AccessTokenView};
use vstd::prelude::*;

verus! {

/// The request that shares files.
pub open spec fn share_create_request(payload: ShareItem, token: AccessTokenView) -> ApiRequestView {
    authorized(
        PlatformConfigView::standard(),
        token,
        Method::Post,
        "/api/v1/share/create"@,
        Seq::empty(),
        Some(PayloadView::Share(payload)),
        false,
    )
}

/// Builds the request that shares files.
pub fn share_create(payload: ShareItem, token: &AccessToken) -> (r: ApiRequest)
    ensures
        r@ == share_create_request(payload, token@),
{
    let platform = PlatformConfig::default();
    authorized_request(
        &platform,
        token,
        Method::Post,
        "/api/v1/share/create",
        no_pairs(),
        Some(Payload::Share(payload)),
        false,
    )
}

/// The query parameters of a page of shares: the page size always, the
/// cursor only where it is given. The platform calls the cursor `lastFileId`.
pub open spec fn share_list_pairs(query: ShareQuery) -> Pairs {
    number_pair("limit"@, query.limit as int) + optional_number(
        "lastFileId"@,
        some_int_i64(query.last_share_id),
    )
}

/// The request for a page of shares.
pub open spec fn share_list_request(query: ShareQuery, token: AccessTokenView) -> ApiRequestView {
    authorized(
        PlatformConfigView::standard(),
        token,
        Method::Get,
        "//api/v1/share/list"@,
        share_list_pairs(query),
        None,
        true,
    )
}

/// Builds the request for a page of shares.
pub fn share_list(query: ShareQuery, token: &AccessToken) -> (r: ApiRequest)
    ensures
        r@ == share_list_request(query, token@),
{
    let platform = PlatformConfig::default();
    let mut pairs: Vec<(String, String)> = no_pairs();
    push_unsigned(&mut pairs, "limit", query.limit as u64);
    push_optional_signed(&mut pairs, "lastFileId", query.last_share_id);
    assert(pairs.deep_view() =~= share_list_pairs(query));
    authorized_request(&platform, token, Method::Get, "//api/v1/share/list", pairs, None, true)
}

/// The request that changes the traffic settings of shares.
pub open spec fn share_list_info_request(
    payload: ShareLinkItem,
    token: AccessTokenView,
) -> ApiRequestView {
    authorized(
        PlatformConfigView::standard(),
        token,
        Method::Put,
        "/api/v1/share/list/info"@,
        Seq::empty(),
        Some(PayloadView::ShareLink(payload)),
        false,
    )
}

/// Builds the request that changes the traffic settings of shares.
pub fn share_list_info(payload: ShareLinkItem, token: &AccessToken) -> (r: ApiRequest)
    ensures
        r@ == share_list_info_request(payload, token@),
{
    let platform = PlatformConfig::default();
    authorized_request(
        &platform,
        token,
        Method::Put,
        "/api/v1/share/list/info",
        no_pairs(),
        Some(Payload::ShareLink(payload)),
        false,
    )
}

/// The request that creates a paid share.
pub open spec fn pay_link_request(payload: PayLinkItem, token: AccessTokenView) -> ApiRequestView {
    authorized(
        PlatformConfigView::standard(),
        token,
        Method::Post,
        "/api/v1/share/content-payment/create"@,
        Seq::empty(),
        Some(PayloadView::PayLink(payload)),
        false,
    )
}

/// Builds the request that creates a paid share.
pub fn pay_link(payload: PayLinkItem, token: &AccessToken) -> (r: ApiRequest)
    ensures
        r@ == pay_link_request(payload, token@),
{
    let platform = PlatformConfig::default();
    authorized_request(
        &platform,
        token,
        Method::Post,
        "/api/v1/share/content-payment/create",
        no_pairs(),
        Some(Payload::PayLink(payload)),
        false,
    )
}

/// The query parameters of a page of paid shares: the cursor only where it
/// is given, then the page size.
pub open spec fn payment_list_pairs(query: ShareQuery) -> Pairs {
    optional_number("lastShareId"@, some_int_i64(query.last_share_id)) + number_pair(
        "limit"@,
        query.limit as int,
    )
}

/// The request for a page of paid shares.
pub open spec fn payment_list_request(query: ShareQuery, token: AccessTokenView) -> ApiRequestView {
    authorized(
        PlatformConfigView::standard(),
        token,
        Method::Get,
        "/api/v1/share/payment/list"@,
        payment_list_pairs(query),
        None,
        true,
    )
}

/// Builds the request for a page of paid shares.
pub fn payment_list(query: ShareQuery, token: &AccessToken) -> (r: ApiRequest)
    ensures
        r@ == payment_list_request(query, token@),
{
    let platform = PlatformConfig::default();
    let mut pairs: Vec<(String, String)> = no_pairs();
    push_optional_signed(&mut pairs, "lastShareId", query.last_share_id);
    push_unsigned(&mut pairs, "limit", query.limit as u64);
    assert(pairs.deep_view() =~= payment_list_pairs(query));
    authorized_request(
        &platform,
        token,
        Method::Get,
        "/api/v1/share/payment/list",
        pairs,
        None,
        true,
    )
}

/// The request that changes the traffic settings of paid shares.
pub open spec fn change_share_list_info_request(
    payload: ShareLinkItem,
    token: AccessTokenView,
) -> ApiRequestView {
    authorized(
        PlatformConfigView::standard(),
        token,
        Method::Put,
        "/api/v1/share/list/payment/info"@,
        Seq::empty(),
        Some(PayloadView::ShareLink(payload)),
        false,
    )
}

/// Builds the request that changes the traffic settings of paid shares.
pub fn change_share_list_info(payload: ShareLinkItem, token: &AccessToken) -> (r: ApiRequest)
    ensures
        r@ == change_share_list_info_request(payload, token@),
{
    let platform = PlatformConfig::default();
    authorized_request(
        &platform,
        token,
        Method::Put,
        "/api/v1/share/list/payment/info",
        no_pairs(),
        Some(Payload::ShareLink(payload)),
        false,
    )
}

/// In the queries of the two share listings, the cursor does not occur where
/// the caller gave none, and no parameter has an empty value.
pub proof fn lemma_share_queries_omit_absent(query: ShareQuery)
    ensures
        all_values_present(share_list_pairs(query)),
        all_values_present(payment_list_pairs(query)),
        query.last_share_id is None ==> !names_of(share_list_pairs(query)).contains(
            "lastFileId"@,
        ),
        query.last_share_id is None ==> !names_of(payment_list_pairs(query)).contains(
            "lastShareId"@,
        ),
{
    reveal_strlit("limit");
    reveal_strlit("lastFileId");
    reveal_strlit("lastShareId");
    lemma_numerals_not_empty();
    assert("limit"@[1] != "lastFileId"@[1]);
    assert("limit"@[1] != "lastShareId"@[1]);
}

} // verus!
