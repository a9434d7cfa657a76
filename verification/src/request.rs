//! Requests to the platform: what is sent, and how an authorised request is
//! put together.

use crate::config::{AuthConfig, AuthConfigView, PlatformConfig, PlatformConfigView};
use crate::file_info::{EntryItem, FileMoveInfo, FilesQuery, UploadFileItem};
use crate::share_file_config::{PayLinkItem, ShareItem, ShareLinkItem};
use crate::text::{i64_to_string, lemma_decimal_is_digits, signed_decimal, u64_to_string};
use crate::token::{AccessToken, AccessTokenView};
use vstd::prelude::*;
use vstd::string::*;

verus! {

/// The HTTP method of a request.
#[derive(Debug, Clone, Copy, PartialEq, Eq, Structural)]
pub enum Method {
    Get,
    Post,
    Put,
}

/// The JSON body of a request.
#[derive(Debug)]
pub enum Payload {
    Credentials(AuthConfig),
    Files(FilesQuery),
    Entry(EntryItem),
    Move(FileMoveInfo),
    Upload(UploadFileItem),
    Share(ShareItem),
    ShareLink(ShareLinkItem),
    PayLink(PayLinkItem),
}

/// What a [`Payload`] holds. The list of file identifiers is taken by its
/// contents.
pub enum PayloadView {
    Credentials(AuthConfigView),
    Files(Seq<u64>),
    Entry(EntryItem),
    Move(FileMoveInfo),
    Upload(UploadFileItem),
    Share(ShareItem),
    ShareLink(ShareLinkItem),
    PayLink(PayLinkItem),
}

impl View for Payload {
    type V = PayloadView;

    open spec fn view(&self) -> PayloadView {
        match self {
            Payload::Credentials(c) => PayloadView::Credentials(c@),
            Payload::Files(f) => PayloadView::Files(f.file_ids@),
            Payload::Entry(e) => PayloadView::Entry(*e),
            Payload::Move(m) => PayloadView::Move(*m),
            Payload::Upload(u) => PayloadView::Upload(*u),
            Payload::Share(s) => PayloadView::Share(*s),
            Payload::ShareLink(l) => PayloadView::ShareLink(*l),
            Payload::PayLink(l) => PayloadView::PayLink(*l),
        }
    }
}

impl DeepView for Payload {
    type V = PayloadView;

    open spec fn deep_view(&self) -> PayloadView {
        self@
    }
}

/// A list of names with their values, as headers and query parameters are.
pub type Pairs = Seq<(Seq<char>, Seq<char>)>;

/// A request, ready to be sent: headers and query parameters in the order in
/// which they are to be written, and the payload to encode as JSON, if any.
#[derive(Debug)]
pub struct ApiRequest {
    pub method: Method,
    pub url: String,
    pub headers: Vec<(String, String)>,
    pub query: Vec<(String, String)>,
    pub body: Option<Payload>,
}

/// What an [`ApiRequest`] holds.
pub struct ApiRequestView {
    pub method: Method,
    pub url: Seq<char>,
    pub headers: Pairs,
    pub query: Pairs,
    pub body: Option<PayloadView>,
}

impl View for ApiRequest {
    type V = ApiRequestView;

    open spec fn view(&self) -> ApiRequestView {
        ApiRequestView {
            method: self.method,
            url: self.url@,
            headers: self.headers.deep_view(),
            query: self.query.deep_view(),
            body: self.body.deep_view(),
        }
    }
}

impl DeepView for ApiRequest {
    type V = ApiRequestView;

    open spec fn deep_view(&self) -> ApiRequestView {
        self@
    }
}

/// The address of `path` on the platform: always HTTPS, always the
/// configured host.
pub open spec fn url_of(platform: PlatformConfigView, path: Seq<char>) -> Seq<char> {
    "https://"@ + platform.platform_domain + path
}

/// The value of the `Authorization` header for a token.
pub open spec fn bearer_of(token: AccessTokenView) -> Seq<char> {
    "Bearer "@ + token.access_token
}

/// No pair if `value` is absent or empty, else the one pair of `name` and
/// the value.
pub open spec fn optional_pair(name: Seq<char>, value: Option<Seq<char>>) -> Pairs {
    if value is Some && value->0.len() > 0 {
        seq![(name, value->0)]
    } else {
        Seq::empty()
    }
}

/// The headers of an authorised request: the token, the platform, and the
/// content type where the request declares one.
pub open spec fn authorized_headers(
    platform: PlatformConfigView,
    token: AccessTokenView,
    declares_json: bool,
) -> Pairs {
    let base = seq![("Authorization"@, bearer_of(token)), ("Platform"@, platform.platform)];
    if declares_json {
        base.push(("Content-Type"@, "application/json"@))
    } else {
        base
    }
}

/// The authorised request for `path`.
pub open spec fn authorized(
    platform: PlatformConfigView,
    token: AccessTokenView,
    method: Method,
    path: Seq<char>,
    query: Pairs,
    body: Option<PayloadView>,
    declares_json: bool,
) -> ApiRequestView {
    ApiRequestView {
        method,
        url: url_of(platform, path),
        headers: authorized_headers(platform, token, declares_json),
        query,
        body,
    }
}

/// Builds the address of `path` on the platform.
pub fn api_url(platform: &PlatformConfig, path: &str) -> (r: String)
    ensures
        r@ == url_of(platform@, path@),
{
    let mut url: String = String::from_str("https://");
    url.append(platform.platform_domain());
    url.append(path);
    url
}

/// Builds the value of the `Authorization` header.
pub fn bearer(token: &AccessToken) -> (r: String)
    ensures
        r@ == bearer_of(token@),
{
    let mut value: String = String::from_str("Bearer ");
    value.append(token.access_token.as_str());
    value
}

/// Appends the pair of `name` and `value` to `list`.
pub fn push_pair(list: &mut Vec<(String, String)>, name: &str, value: String)
    ensures
        final(list).deep_view() == old(list).deep_view().push((name@, value@)),
{
    let ghost before = list.deep_view();
    list.push((String::from_str(name), value));
    assert(list.deep_view() =~= before.push((name@, value@)));
}

/// Appends the pair of `name` and `value` to `list` if there is a value and
/// it is not empty; else leaves `list` as it is.
pub fn push_optional(list: &mut Vec<(String, String)>, name: &str, value: Option<String>)
    ensures
        final(list).deep_view() == old(list).deep_view() + optional_pair(name@, value.deep_view()),
{
    let ghost before = list.deep_view();
    match value {
        Some(v) => {
            if v.as_str().unicode_len() > 0 {
                push_pair(list, name, v);
                assert(list.deep_view() =~= before + optional_pair(name@, value.deep_view()));
            } else {
                assert(list.deep_view() =~= before + optional_pair(name@, value.deep_view()));
            }
        },
        None => {
            assert(list.deep_view() =~= before + optional_pair(name@, value.deep_view()));
        },
    }
}

/// The pair of `name` and the numeral of `value`.
pub open spec fn number_pair(name: Seq<char>, value: int) -> Pairs {
    seq![(name, signed_decimal(value))]
}

/// No pair if `value` is absent, else the pair of `name` and its numeral.
pub open spec fn optional_number(name: Seq<char>, value: Option<int>) -> Pairs {
    match value {
        Some(v) => number_pair(name, v),
        None => Seq::empty(),
    }
}

/// The names in a list of pairs, in order.
pub open spec fn names_of(pairs: Pairs) -> Seq<Seq<char>> {
    pairs.map_values(|p: (Seq<char>, Seq<char>)| p.0)
}

/// Whether no pair of the list has an empty value.
pub open spec fn all_values_present(pairs: Pairs) -> bool {
    forall|i: int| 0 <= i < pairs.len() ==> (#[trigger] pairs[i]).1.len() > 0
}

/// No numeral is empty.
pub proof fn lemma_numerals_not_empty()
    ensures
        forall|v: int| (#[trigger] signed_decimal(v)).len() > 0,
{
    assert forall|v: int| (#[trigger] signed_decimal(v)).len() > 0 by {
        if v < 0 {
            lemma_decimal_is_digits((-v) as nat);
        } else {
            lemma_decimal_is_digits(v as nat);
        }
    }
}

/// Appends the pair of `name` and the numeral of `value`.
pub fn push_unsigned(list: &mut Vec<(String, String)>, name: &str, value: u64)
    ensures
        final(list).deep_view() == old(list).deep_view() + number_pair(name@, value as int),
{
    let ghost before = list.deep_view();
    push_pair(list, name, u64_to_string(value));
    assert(list.deep_view() =~= before + number_pair(name@, value as int));
}

/// Appends the pair of `name` and the numeral of `value`.
pub fn push_signed(list: &mut Vec<(String, String)>, name: &str, value: i64)
    ensures
        final(list).deep_view() == old(list).deep_view() + number_pair(name@, value as int),
{
    let ghost before = list.deep_view();
    push_pair(list, name, i64_to_string(value));
    assert(list.deep_view() =~= before + number_pair(name@, value as int));
}

/// Appends the pair of `name` and the numeral of `value` if there is a
/// value; else leaves `list` as it is.
pub fn push_optional_signed(list: &mut Vec<(String, String)>, name: &str, value: Option<i64>)
    ensures
        final(list).deep_view() == old(list).deep_view() + optional_number(
            name@,
            match value {
                Some(v) => Some(v as int),
                None => None,
            },
        ),
{
    let ghost before = list.deep_view();
    match value {
        Some(v) => {
            push_signed(list, name, v);
        },
        None => {
            assert(list.deep_view() =~= before + Seq::<(Seq<char>, Seq<char>)>::empty());
        },
    }
}

/// Appends the pair of `name` and the numeral of `value` if there is a
/// value; else leaves `list` as it is.
pub fn push_optional_unsigned(list: &mut Vec<(String, String)>, name: &str, value: Option<u64>)
    ensures
        final(list).deep_view() == old(list).deep_view() + optional_number(
            name@,
            match value {
                Some(v) => Some(v as int),
                None => None,
            },
        ),
{
    let ghost before = list.deep_view();
    match value {
        Some(v) => {
            push_unsigned(list, name, v);
        },
        None => {
            assert(list.deep_view() =~= before + Seq::<(Seq<char>, Seq<char>)>::empty());
        },
    }
}

/// An empty list of pairs.
pub fn no_pairs() -> (r: Vec<(String, String)>)
    ensures
        r.deep_view() == Seq::<(Seq<char>, Seq<char>)>::empty(),
{
    let r: Vec<(String, String)> = Vec::new();
    assert(r.deep_view() =~= Seq::<(Seq<char>, Seq<char>)>::empty());
    r
}

/// Puts an authorised request together: the address of `path` on the
/// platform, the token as bearer, the platform header, and the query and
/// body as given.
pub fn authorized_request(
    platform: &PlatformConfig,
    token: &AccessToken,
    method: Method,
    path: &str,
    query: Vec<(String, String)>,
    body: Option<Payload>,
    declares_json: bool,
) -> (r: ApiRequest)
    ensures
        r@ == authorized(
            platform@,
            token@,
            method,
            path@,
            query.deep_view(),
            body.deep_view(),
            declares_json,
        ),
{
    let mut headers: Vec<(String, String)> = Vec::new();
    assert(headers.deep_view() =~= Seq::<(Seq<char>, Seq<char>)>::empty());
    push_pair(&mut headers, "Authorization", bearer(token));
    push_pair(&mut headers, "Platform", String::from_str(platform.platform()));
    if declares_json {
        push_pair(&mut headers, "Content-Type", String::from_str("application/json"));
    }
    assert(headers.deep_view() =~= authorized_headers(platform@, token@, declares_json));
    ApiRequest { method, url: api_url(platform, path), headers, query, body }
}

} // verus!
