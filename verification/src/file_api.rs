//! The requests of the file endpoints and of the user endpoint.

use crate::config::{PlatformConfig, PlatformConfigView};
use crate::file_info::{
    EntryItem, FileListQuery, FileMoveInfo, FileQuery, FileSearchItem, FilesQuery, UploadFileItem,
};
use crate::limit::{limit_vec, limited};
use crate::request::{
    all_values_present, authorized, authorized_request, lemma_numerals_not_empty, names_of,
    no_pairs, number_pair,
    optional_number, optional_pair, push_optional, push_optional_signed, push_optional_unsigned,
    push_signed, push_unsigned, ApiRequest, ApiRequestView, Method, Pairs, Payload, PayloadView,
};

use crate::token::{AccessToken, AccessTokenView};
use vstd::prelude::*;

verus! {

/// The numeral of an optional integer.
pub open spec fn some_int_i64(v: Option<i64>) -> Option<int> {
    match v {
        Some(i) => Some(i as int),
        None => None,
    }
}

/// The numeral of an optional small integer.
pub open spec fn some_int_u8(v: Option<u8>) -> Option<int> {
    match v {
        Some(i) => Some(i as int),
        None => None,
    }
}

/// The query parameters of a directory listing: the directory and the page
/// size always, the filters and the cursor only where they are given.
pub open spec fn file_list_pairs(query: FileListQuery) -> Pairs {
    number_pair("parentFileId"@, query.parent_file_id as int) + number_pair(
        "limit"@,
        query.limit as int,
    ) + optional_pair("searchData"@, query.search_data.deep_view()) + optional_number(
        "searchMode"@,
        some_int_u8(query.search_mode),
    ) + optional_number("lastFileId"@, some_int_i64(query.last_file_id))
}

/// The request that lists a directory.
pub open spec fn file_lists_query_request(
    query: FileListQuery,
    token: AccessTokenView,
) -> ApiRequestView {
    authorized(
        PlatformConfigView::standard(),
        token,
        Method::Get,
        "/api/v2/file/list"@,
        file_list_pairs(query),
        None,
        true,
    )
}

/// Builds the request that lists a directory.
pub fn file_lists_query(query: FileListQuery, token: &AccessToken) -> (r: ApiRequest)
    ensures
        r@ == file_lists_query_request(query, token@),
{
    let platform = PlatformConfig::default();
    let mut pairs: Vec<(String, String)> = no_pairs();
    push_signed(&mut pairs, "parentFileId", query.parent_file_id);
    push_unsigned(&mut pairs, "limit", query.limit as u64);
    push_optional(&mut pairs, "searchData", query.search_data);
    push_optional_unsigned(
        &mut pairs,
        "searchMode",
        match query.search_mode {
            Some(m) => Some(m as u64),
            None => None,
        },
    );
    push_optional_signed(&mut pairs, "lastFileId", query.last_file_id);
    assert(pairs.deep_view() =~= file_list_pairs(query));
    authorized_request(&platform, token, Method::Get, "/api/v2/file/list", pairs, None, true)
}

/// The query parameter that names one file.
pub open spec fn file_id_pairs(query: FileQuery) -> Pairs {
    number_pair("fileID"@, query.file_id as int)
}

/// The request for the details of one file.
pub open spec fn file_query_request(query: FileQuery, token: AccessTokenView) -> ApiRequestView {
    authorized(
        PlatformConfigView::standard(),
        token,
        Method::Get,
        "/api/v1/file/detail"@,
        file_id_pairs(query),
        None,
        false,
    )
}

/// Builds the request for the details of one file.
pub fn file_query(query: FileQuery, token: &AccessToken) -> (r: ApiRequest)
    ensures
        r@ == file_query_request(query, token@),
{
    let platform = PlatformConfig::default();
    let mut pairs: Vec<(String, String)> = no_pairs();
    push_signed(&mut pairs, "fileID", query.file_id);
    assert(pairs.deep_view() =~= file_id_pairs(query));
    authorized_request(&platform, token, Method::Get, "/api/v1/file/detail", pairs, None, false)
}

/// The request for the details of several files: at most as many as a list
/// may hold, the first ones where more are asked for.
pub open spec fn files_info_request(payload: FilesQuery, token: AccessTokenView) -> ApiRequestView {
    authorized(
        PlatformConfigView::standard(),
        token,
        Method::Post,
        "/api/v1/file/infos"@,
        Seq::empty(),
        Some(PayloadView::Files(limited(payload.file_ids@))),
        false,
    )
}

/// Builds the request for the details of several files. The list of
/// identifiers is cut to the length that the platform accepts.
pub fn files_info(payload: FilesQuery, token: &AccessToken) -> (r: ApiRequest)
    ensures
        r@ == files_info_request(payload, token@),
{
    let platform = PlatformConfig::default();
    let sent = FilesQuery { file_ids: limit_vec(payload.file_ids) };
    authorized_request(
        &platform,
        token,
        Method::Post,
        "/api/v1/file/infos",
        no_pairs(),
        Some(Payload::Files(sent)),
        false,
    )
}

/// The request that creates a directory.
pub open spec fn mkdir_request(payload: EntryItem, token: AccessTokenView) -> ApiRequestView {
    authorized(
        PlatformConfigView::standard(),
        token,
        Method::Post,
        "/upload/v1/file/mkdir"@,
        Seq::empty(),
        Some(PayloadView::Entry(payload)),
        false,
    )
}

/// Builds the request that creates a directory.
pub fn mkdir(payload: EntryItem, token: &AccessToken) -> (r: ApiRequest)
    ensures
        r@ == mkdir_request(payload, token@),
{
    let platform = PlatformConfig::default();
    authorized_request(
        &platform,
        token,
        Method::Post,
        "/upload/v1/file/mkdir",
        no_pairs(),
        Some(Payload::Entry(payload)),
        false,
    )
}

/// The request for the address from which a file can be downloaded.
pub open spec fn download_request(query: FileQuery, token: AccessTokenView) -> ApiRequestView {
    authorized(
        PlatformConfigView::standard(),
        token,
        Method::Get,
        "/api/v1/file/download_info"@,
        file_id_pairs(query),
        None,
        true,
    )
}

/// Builds the request for the address from which a file can be downloaded.
pub fn download(query: FileQuery, token: &AccessToken) -> (r: ApiRequest)
    ensures
        r@ == download_request(query, token@),
{
    let platform = PlatformConfig::default();
    let mut pairs: Vec<(String, String)> = no_pairs();
    push_signed(&mut pairs, "fileID", query.file_id);
    assert(pairs.deep_view() =~= file_id_pairs(query));
    authorized_request(
        &platform,
        token,
        Method::Get,
        "/api/v1/file/download_info",
        pairs,
        None,
        true,
    )
}

/// The query parameters of a search: the directory and the page size always,
/// the search text, the search mode and the cursor only where they are given.
pub open spec fn file_search_pairs(query: FileSearchItem) -> Pairs {
    number_pair("parentFileId"@, query.parent_file_id as int) + number_pair(
        "limit"@,
        query.limit as int,
    ) + optional_pair("searchData"@, query.search_data.deep_view()) + optional_pair(
        "searchMode"@,
        query.search_mode.deep_view(),
    ) + optional_number("lastFileId"@, some_int_i64(query.last_file_id))
}

/// The request that searches below a directory.
pub open spec fn file_search_request(query: FileSearchItem, token: AccessTokenView) -> ApiRequestView {
    authorized(
        PlatformConfigView::standard(),
        token,
        Method::Get,
        "/api/v2/file/list"@,
        file_search_pairs(query),
        None,
        true,
    )
}

/// Builds the request that searches below a directory.
pub fn file_search(query: FileSearchItem, token: &AccessToken) -> (r: ApiRequest)
    ensures
        r@ == file_search_request(query, token@),
{
    let platform = PlatformConfig::default();
    let mut pairs: Vec<(String, String)> = no_pairs();
    push_unsigned(&mut pairs, "parentFileId", query.parent_file_id);
    push_unsigned(&mut pairs, "limit", query.limit as u64);
    push_optional(&mut pairs, "searchData", query.search_data);
    push_optional(&mut pairs, "searchMode", query.search_mode);
    push_optional_signed(&mut pairs, "lastFileId", query.last_file_id);
    assert(pairs.deep_view() =~= file_search_pairs(query));
    authorized_request(&platform, token, Method::Get, "/api/v2/file/list", pairs, None, true)
}

/// The request that moves files into another directory.
pub open spec fn move_file_request(payload: FileMoveInfo, token: AccessTokenView) -> ApiRequestView {
    authorized(
        PlatformConfigView::standard(),
        token,
        Method::Post,
        "/api/v1/file/move"@,
        Seq::empty(),
        Some(PayloadView::Move(payload)),
        false,
    )
}

/// Builds the request that moves files into another directory.
pub fn move_file(payload: FileMoveInfo, token: &AccessToken) -> (r: ApiRequest)
    ensures
        r@ == move_file_request(payload, token@),
{
    let platform = PlatformConfig::default();
    authorized_request(
        &platform,
        token,
        Method::Post,
        "/api/v1/file/move",
        no_pairs(),
        Some(Payload::Move(payload)),
        false,
    )
}

/// The request that registers a file for upload.
pub open spec fn file_upload_request(payload: UploadFileItem, token: AccessTokenView) -> ApiRequestView {
    authorized(
        PlatformConfigView::standard(),
        token,
        Method::Post,
        "/upload/v2/file/create"@,
        Seq::empty(),
        Some(PayloadView::Upload(payload)),
        false,
    )
}

/// Builds the request that registers a file for upload.
pub fn file_upload(payload: UploadFileItem, token: &AccessToken) -> (r: ApiRequest)
    ensures
        r@ == file_upload_request(payload, token@),
{
    let platform = PlatformConfig::default();
    authorized_request(
        &platform,
        token,
        Method::Post,
        "/upload/v2/file/create",
        no_pairs(),
        Some(Payload::Upload(payload)),
        false,
    )
}

/// The request for the account that the token belongs to.
pub open spec fn user_info_request(token: AccessTokenView) -> ApiRequestView {
    authorized(
        PlatformConfigView::standard(),
        token,
        Method::Get,
        "/api/v1/user/info"@,
        Seq::empty(),
        None,
        false,
    )
}

/// Builds the request for the account that the token belongs to.
pub fn user_info(token: &AccessToken) -> (r: ApiRequest)
    ensures
        r@ == user_info_request(token@),
{
    let platform = PlatformConfig::default();
    authorized_request(&platform, token, Method::Get, "/api/v1/user/info", no_pairs(), None, false)
}

/// In the query of a directory listing, a parameter for which the caller
/// gave no value does not occur, and no parameter has an empty value.
pub proof fn lemma_file_list_omits_absent(query: FileListQuery)
    ensures
        all_values_present(file_list_pairs(query)),
        query.search_data is None ==> !names_of(file_list_pairs(query)).contains("searchData"@),
        query.search_mode is None ==> !names_of(file_list_pairs(query)).contains("searchMode"@),
        query.last_file_id is None ==> !names_of(file_list_pairs(query)).contains("lastFileId"@),
{
    reveal_strlit("parentFileId");
    reveal_strlit("limit");
    reveal_strlit("searchData");
    reveal_strlit("searchMode");
    reveal_strlit("lastFileId");
    lemma_numerals_not_empty();
    assert("searchData"@[6] != "searchMode"@[6]);
    assert("searchData"@[0] != "lastFileId"@[0]);
    assert("searchMode"@[0] != "lastFileId"@[0]);
    assert("parentFileId"@[0] != "lastFileId"@[0]);
    assert("limit"@[1] != "lastFileId"@[1]);
}

/// In the query of a search, a parameter for which the caller gave no value
/// does not occur, and no parameter has an empty value.
pub proof fn lemma_file_search_omits_absent(query: FileSearchItem)
    ensures
        all_values_present(file_search_pairs(query)),
        query.search_data is None ==> !names_of(file_search_pairs(query)).contains("searchData"@),
        query.search_mode is None ==> !names_of(file_search_pairs(query)).contains("searchMode"@),
        query.last_file_id is None ==> !names_of(file_search_pairs(query)).contains(
            "lastFileId"@,
        ),
{
    reveal_strlit("parentFileId");
    reveal_strlit("limit");
    reveal_strlit("searchData");
    reveal_strlit("searchMode");
    reveal_strlit("lastFileId");
    lemma_numerals_not_empty();
    assert("searchData"@[6] != "searchMode"@[6]);
    assert("searchData"@[0] != "lastFileId"@[0]);
    assert("searchMode"@[0] != "lastFileId"@[0]);
    assert("parentFileId"@[0] != "lastFileId"@[0]);
    assert("limit"@[1] != "lastFileId"@[1]);
}

} // verus!
