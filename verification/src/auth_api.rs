//! Obtaining an access token: the request to the token endpoint, and the
//! machine that answers "use the cached token if it is valid, else fetch a
//! new one and keep it".
//!
//! The machine performs nothing itself. It hands out an action; whoever runs
//! it performs the action and hands back what happened.

use crate::config::{AuthConfig, AuthConfigView, PlatformConfig, PlatformConfigView};
use crate::dispatch::{
    body_text, is_success_status, judge_reply, reply_verdict, Endpoint, GatewayError,
    GatewayErrorView, HttpReply, HttpReplyView,
};
use crate::envelope::{AccessTokenResponse, ApiResponse, ApiResponseView};
use crate::request::{
    api_url, no_pairs, push_pair, url_of, ApiRequest, ApiRequestView, Method, Payload, PayloadView,
};
use crate::token::{now, AccessToken, AccessTokenView, Instant};
use crate::token_store::{
    cache_verdict, judge_lookup, CacheError, CacheLookup, CacheLookupView,
};
use vstd::prelude::*;
use vstd::string::*;

verus! {

/// What the envelope of the token endpoint holds.
pub type TokenEnvelope = ApiResponseView<AccessTokenView>;

/// The request that exchanges credentials for a token: one POST to the token
/// endpoint of the standard platform, with the platform header and the
/// credentials as its body. It carries no token.
pub open spec fn access_token_request(payload: AuthConfigView) -> ApiRequestView {
    ApiRequestView {
        method: Method::Post,
        url: url_of(PlatformConfigView::standard(), "/api/v1/access_token"@),
        headers: seq![("Platform"@, PlatformConfigView::standard().platform)],
        query: Seq::empty(),
        body: Some(PayloadView::Credentials(payload)),
    }
}

/// Builds the request that exchanges credentials for a token.
pub fn access_token(payload: AuthConfig) -> (r: ApiRequest)
    ensures
        r@ == access_token_request(payload@),
{
    let platform = PlatformConfig::default();
    let mut headers: Vec<(String, String)> = no_pairs();
    push_pair(&mut headers, "Platform", String::from_str(platform.platform()));
    assert(headers.deep_view() =~= seq![("Platform"@, PlatformConfigView::standard().platform)]);
    ApiRequest {
        method: Method::Post,
        url: api_url(&platform, "/api/v1/access_token"),
        headers,
        query: no_pairs(),
        body: Some(Payload::Credentials(payload)),
    }
}

/// The envelope in which a token from the cache is handed out.
pub open spec fn cached_envelope(token: AccessTokenView) -> TokenEnvelope {
    ApiResponseView { code: 200, message: "响应成功"@, data: Some(token), x_trace_id: "xtrace"@ }
}

/// Where the search for a token stands.
#[derive(Debug)]
pub enum TokenProvider {
    /// The cache is being read.
    LookingUp { credentials: AuthConfig },
    /// The request for a new token was handed out; its reply is awaited.
    Fetching,
    /// The body of the reply was handed out; its decoding is awaited.
    Decoding { body: String },
    /// The new token was handed out to be kept; the outcome is awaited.
    Persisting { envelope: AccessTokenResponse },
    /// The result was handed out.
    Finished,
}

/// What a [`TokenProvider`] holds.
pub enum TokenProviderView {
    LookingUp { credentials: AuthConfigView },
    Fetching,
    Decoding { body: Seq<char> },
    Persisting { envelope: TokenEnvelope },
    Finished,
}

impl View for TokenProvider {
    type V = TokenProviderView;

    open spec fn view(&self) -> TokenProviderView {
        match self {
            TokenProvider::LookingUp { credentials } => TokenProviderView::LookingUp {
                credentials: credentials@,
            },
            TokenProvider::Fetching => TokenProviderView::Fetching,
            TokenProvider::Decoding { body } => TokenProviderView::Decoding { body: body@ },
            TokenProvider::Persisting { envelope } => TokenProviderView::Persisting {
                envelope: envelope.deep_view(),
            },
            TokenProvider::Finished => TokenProviderView::Finished,
        }
    }
}

/// What happened when an action of the provider was performed.
#[derive(Debug)]
pub enum ProviderEvent {
    /// The cache was read.
    Looked(CacheLookup),
    /// The request was sent, or sending it failed.
    Replied(HttpReply),
    /// The body was decoded, or is not the envelope of the token endpoint.
    Decoded(Option<AccessTokenResponse>),
    /// The token was written to the cache (`true`), or writing failed.
    Persisted(bool),
}

/// What a [`ProviderEvent`] holds.
pub enum ProviderEventView {
    Looked(CacheLookupView),
    Replied(HttpReplyView),
    Decoded(Option<TokenEnvelope>),
    Persisted(bool),
}

impl View for ProviderEvent {
    type V = ProviderEventView;

    open spec fn view(&self) -> ProviderEventView {
        match self {
            ProviderEvent::Looked(lookup) => ProviderEventView::Looked(lookup@),
            ProviderEvent::Replied(reply) => ProviderEventView::Replied(reply@),
            ProviderEvent::Decoded(decoded) => ProviderEventView::Decoded(decoded.deep_view()),
            ProviderEvent::Persisted(ok) => ProviderEventView::Persisted(*ok),
        }
    }
}

/// What the provider asks to be done next.
#[derive(Debug)]
pub enum ProviderAction {
    /// Read the cache file.
    ReadCache,
    /// Send this request, once.
    Send(ApiRequest),
    /// Decode this body as the envelope of the token endpoint.
    Decode(String),
    /// Write this token to the cache file, in place of what it holds.
    Persist(AccessToken),
    /// The search is over, with this result.
    Finish(Result<AccessTokenResponse, GatewayError>),
    /// The event does not answer what was asked for; nothing has changed.
    Unexpected,
}

/// What a [`ProviderAction`] holds.
pub enum ProviderActionView {
    ReadCache,
    Send(ApiRequestView),
    Decode(Seq<char>),
    Persist(AccessTokenView),
    Finish(Result<TokenEnvelope, GatewayErrorView>),
    Unexpected,
}

impl View for ProviderAction {
    type V = ProviderActionView;

    open spec fn view(&self) -> ProviderActionView {
        match self {
            ProviderAction::ReadCache => ProviderActionView::ReadCache,
            ProviderAction::Send(request) => ProviderActionView::Send(request@),
            ProviderAction::Decode(body) => ProviderActionView::Decode(body@),
            ProviderAction::Persist(token) => ProviderActionView::Persist(token@),
            ProviderAction::Finish(result) => ProviderActionView::Finish(
                match result {
                    Ok(envelope) => Ok(envelope.deep_view()),
                    Err(e) => Err(e@),
                },
            ),
            ProviderAction::Unexpected => ProviderActionView::Unexpected,
        }
    }
}

/// The transition of the provider at the instant `now`: the state after
/// `event`, and what to do next.
///
/// - A cached token that is valid at `now` ends the search: it is handed out
///   and nothing is sent.
/// - Any other outcome of the lookup, whatever its kind, leads to one
///   request for a new token.
/// - A failure of that request ends the search with that failure.
/// - An answer that decodes to an envelope with a token has the token kept,
///   and the envelope is the result whether or not keeping it worked.
/// - An answer that does not decode, or decodes to an envelope without a
///   token, ends the search with a decoding error that carries the body.
pub open spec fn provider_next(state: TokenProviderView, event: ProviderEventView, now: Instant) -> (
    TokenProviderView,
    ProviderActionView,
) {
    match (state, event) {
        (
            TokenProviderView::LookingUp { credentials },
            ProviderEventView::Looked(lookup),
        ) => match cache_verdict(lookup, now) {
            Ok(token) => (
                TokenProviderView::Finished,
                ProviderActionView::Finish(Ok(cached_envelope(token))),
            ),
            Err(_) => (
                TokenProviderView::Fetching,
                ProviderActionView::Send(access_token_request(credentials)),
            ),
        },
        (TokenProviderView::Fetching, ProviderEventView::Replied(reply)) => match reply_verdict(
            Endpoint::Token,
            reply,
        ) {
            Ok(body) => (TokenProviderView::Decoding { body }, ProviderActionView::Decode(body)),
            Err(e) => (TokenProviderView::Finished, ProviderActionView::Finish(Err(e))),
        },
        (
            TokenProviderView::Decoding { body },
            ProviderEventView::Decoded(decoded),
        ) => if decoded is Some && decoded->0.data is Some {
            (
                TokenProviderView::Persisting { envelope: decoded->0 },
                ProviderActionView::Persist(decoded->0.data->0),
            )
        } else {
            (
                TokenProviderView::Finished,
                ProviderActionView::Finish(Err(GatewayErrorView::Decode { raw: body })),
            )
        },
        (TokenProviderView::Persisting { envelope }, ProviderEventView::Persisted(_)) => (
            TokenProviderView::Finished,
            ProviderActionView::Finish(Ok(envelope)),
        ),
        _ => (state, ProviderActionView::Unexpected),
    }
}

impl TokenProviderView {
    /// An envelope that is being kept holds the token that is kept.
    pub open spec fn well_formed(self) -> bool {
        self matches TokenProviderView::Persisting { envelope } ==> envelope.data is Some
    }
}

/// A step keeps a provider well formed, and a well-formed provider never
/// finishes with an envelope that lacks a token.
pub proof fn lemma_provider_stays_well_formed(
    state: TokenProviderView,
    event: ProviderEventView,
    now: Instant,
)
    requires
        state.well_formed(),
    ensures
        provider_next(state, event, now).0.well_formed(),
        provider_next(state, event, now).1 matches ProviderActionView::Finish(Ok(envelope))
            ==> envelope.data is Some,
        provider_next(state, event, now).1 is Unexpected ==> provider_next(state, event, now).0
            == state,
{
}

/// Begins the search for a token for `payload`: the cache is to be read.
pub fn access_token_and_cache(payload: AuthConfig) -> (r: (TokenProvider, ProviderAction))
    ensures
        r.0@ == (TokenProviderView::LookingUp { credentials: payload@ }),
        r.1@ == ProviderActionView::ReadCache,
{
    (TokenProvider::LookingUp { credentials: payload }, ProviderAction::ReadCache)
}

impl TokenProvider {
    /// Takes the search one step on, at the instant `now`.
    pub fn step_at(self, event: ProviderEvent, now: &Instant) -> (r: (TokenProvider, ProviderAction))
        ensures
            (r.0@, r.1@) == provider_next(self@, event@, *now),
    {
        match (self, event) {
            (TokenProvider::LookingUp { credentials }, ProviderEvent::Looked(lookup)) => {
                match judge_lookup(lookup, now) {
                    Ok(token) => {
                        let envelope = ApiResponse::new(
                            200,
                            String::from_str("响应成功"),
                            token,
                            String::from_str("xtrace"),
                        );
                        (TokenProvider::Finished, ProviderAction::Finish(Ok(envelope)))
                    },
                    Err(_) => (
                        TokenProvider::Fetching,
                        ProviderAction::Send(access_token(credentials)),
                    ),
                }
            },
            (TokenProvider::Fetching, ProviderEvent::Replied(reply)) => {
                match judge_reply(Endpoint::Token, reply) {
                    Ok(body) => {
                        let copy: String = body.clone();
                        (TokenProvider::Decoding { body }, ProviderAction::Decode(copy))
                    },
                    Err(e) => (TokenProvider::Finished, ProviderAction::Finish(Err(e))),
                }
            },
            (TokenProvider::Decoding { body }, ProviderEvent::Decoded(decoded)) => {
                match decoded {
                    Some(envelope) => {
                        match &envelope.data {
                            Some(token) => {
                                let copy: AccessToken = token.clone();
                                (
                                    TokenProvider::Persisting { envelope },
                                    ProviderAction::Persist(copy),
                                )
                            },
                            None => (
                                TokenProvider::Finished,
                                ProviderAction::Finish(Err(GatewayError::Decode { raw: body })),
                            ),
                        }
                    },
                    None => (
                        TokenProvider::Finished,
                        ProviderAction::Finish(Err(GatewayError::Decode { raw: body })),
                    ),
                }
            },
            (TokenProvider::Persisting { envelope }, ProviderEvent::Persisted(_)) => {
                (TokenProvider::Finished, ProviderAction::Finish(Ok(envelope)))
            },
            (state, _) => (state, ProviderAction::Unexpected),
        }
    }

    /// Takes the search one step on, at the present instant as the system
    /// clock gives it: the result is that of [`TokenProvider::step_at`] at
    /// some instant, and at every instant where the event is not the finding
    /// of a cached token.
    pub fn step(self, event: ProviderEvent) -> (r: (TokenProvider, ProviderAction))
        ensures
            exists|at: Instant| #[trigger] provider_next(self@, event@, at) == (r.0@, r.1@),
            !(event matches ProviderEvent::Looked(CacheLookup::Record(_))) ==> forall|at: Instant|
                #[trigger] provider_next(self@, event@, at) == (r.0@, r.1@),
    {
        // Only the verdict on a cached token depends on the time.
        let at: Instant = match &event {
            ProviderEvent::Looked(CacheLookup::Record(_)) => now(),
            _ => Instant::new(0, 0),
        };
        let r = self.step_at(event, &at);
        assert(provider_next(self@, event@, at) == (r.0@, r.1@));
        r
    }
}

/// What the actions of one search come to: the world in which it runs.
pub struct World {
    /// What reading the cache comes to.
    pub lookup: CacheLookupView,
    /// The instant at which the cached token is judged.
    pub now: Instant,
    /// What sending the request for a token comes to.
    pub reply: HttpReplyView,
    /// What decoding the body of the reply comes to.
    pub decoded: Option<TokenEnvelope>,
    /// Whether writing the cache works.
    pub persisted: bool,
}

/// What one search did and came to.
pub struct Run {
    /// The result that was handed out.
    pub result: Result<TokenEnvelope, GatewayErrorView>,
    /// The requests that were handed out to be sent, in order.
    pub sent: Seq<ApiRequestView>,
    /// The tokens that were handed out to be written to the cache, in order.
    pub stored: Seq<AccessTokenView>,
}

/// Runs the provider from `state`, where `action` is pending, for at most
/// `fuel` actions: each action is answered as `world` says. `None` where the
/// provider does not finish in that many actions.
pub open spec fn drive(
    state: TokenProviderView,
    action: ProviderActionView,
    world: World,
    sent: Seq<ApiRequestView>,
    stored: Seq<AccessTokenView>,
    fuel: nat,
) -> Option<Run>
    decreases fuel,
{
    if fuel == 0 {
        None
    } else {
        match action {
            ProviderActionView::Finish(result) => Some(Run { result, sent, stored }),
            ProviderActionView::Unexpected => None,
            ProviderActionView::ReadCache => {
                let next = provider_next(state, ProviderEventView::Looked(world.lookup), world.now);
                drive(next.0, next.1, world, sent, stored, (fuel - 1) as nat)
            },
            ProviderActionView::Send(request) => {
                let next = provider_next(state, ProviderEventView::Replied(world.reply), world.now);
                drive(next.0, next.1, world, sent.push(request), stored, (fuel - 1) as nat)
            },
            ProviderActionView::Decode(_) => {
                let next = provider_next(
                    state,
                    ProviderEventView::Decoded(world.decoded),
                    world.now,
                );
                drive(next.0, next.1, world, sent, stored, (fuel - 1) as nat)
            },
            ProviderActionView::Persist(token) => {
                let next = provider_next(
                    state,
                    ProviderEventView::Persisted(world.persisted),
                    world.now,
                );
                drive(next.0, next.1, world, sent, stored.push(token), (fuel - 1) as nat)
            },
        }
    }
}

/// One whole search for a token for `credentials` in `world`. Five actions
/// are the longest search there is: read, send, decode, write, finish.
pub open spec fn search(credentials: AuthConfigView, world: World) -> Option<Run> {
    drive(
        TokenProviderView::LookingUp { credentials },
        ProviderActionView::ReadCache,
        world,
        Seq::empty(),
        Seq::empty(),
        5,
    )
}

/// Whether the remote side answers with a token: the reply is a success and
/// its body decodes to an envelope that holds one.
pub open spec fn remote_succeeds(world: World) -> bool {
    &&& world.reply matches HttpReplyView::Answered { status, body }
    &&& is_success_status(status)
    &&& world.decoded is Some
    &&& world.decoded->0.data is Some
}

/// The result of a fetch in `world`.
pub open spec fn fetch_result(world: World) -> Result<TokenEnvelope, GatewayErrorView> {
    match reply_verdict(Endpoint::Token, world.reply) {
        Ok(body) => if world.decoded is Some && world.decoded->0.data is Some {
            Ok(world.decoded->0)
        } else {
            Err(GatewayErrorView::Decode { raw: body })
        },
        Err(e) => Err(e),
    }
}

/// What a search comes to where the cache holds a valid token: that token,
/// nothing sent, nothing written.
pub open spec fn reuse(token: AccessTokenView) -> Run {
    Run { result: Ok(cached_envelope(token)), sent: Seq::empty(), stored: Seq::empty() }
}

/// What a search comes to where the cache gives no valid token: one request
/// for a token, its result, and the fetched token, if there is one, written
/// once.
pub open spec fn refetch(credentials: AuthConfigView, world: World) -> Run {
    Run {
        result: fetch_result(world),
        sent: seq![access_token_request(credentials)],
        stored: if fetch_result(world) is Ok {
            seq![world.decoded->0.data->0]
        } else {
            Seq::empty()
        },
    }
}

/// Every search finishes, in one of two ways: with the cached token, where
/// the cache holds one that is valid; else with the result of one fetch.
/// There is no third way, and nothing is tried twice.
pub proof fn lemma_search_finishes(credentials: AuthConfigView, world: World)
    ensures
        search(credentials, world) == Some(
            match cache_verdict(world.lookup, world.now) {
                Ok(token) => reuse(token),
                Err(_) => refetch(credentials, world),
            },
        ),
{
    reveal_with_fuel(drive, 6);
    match cache_verdict(world.lookup, world.now) {
        Ok(token) => {},
        Err(_) => {
            let run = search(credentials, world)->0;
            assert(run.sent =~= seq![access_token_request(credentials)]);
            if fetch_result(world) is Ok {
                assert(run.stored =~= seq![world.decoded->0.data->0]);
            } else {
                assert(run.stored =~= Seq::<AccessTokenView>::empty());
            }
        },
    }
}

/// A cached token that has expired, the instant of expiry included, is never
/// handed out: exactly one request for a token is made, and the result is
/// that of the fetch, so that a success carries what the remote side sent.
pub proof fn lemma_expired_token_is_refetched(
    credentials: AuthConfigView,
    world: World,
    cached: AccessTokenView,
)
    requires
        world.lookup == CacheLookupView::Record(cached),
        !world.now.is_before(cached.expired_at),
    ensures
        search(credentials, world) == Some(refetch(credentials, world)),
        refetch(credentials, world).sent.len() == 1,
        refetch(credentials, world).result matches Ok(envelope) ==> world.decoded == Some(
            envelope,
        ),
{
    lemma_search_finishes(credentials, world);
}

/// A cached token that is still valid is handed out as it is, the remote
/// side is not asked, and the cache is not written.
pub proof fn lemma_valid_token_is_reused(
    credentials: AuthConfigView,
    world: World,
    cached: AccessTokenView,
)
    requires
        world.lookup == CacheLookupView::Record(cached),
        world.now.is_before(cached.expired_at),
    ensures
        search(credentials, world) == Some(reuse(cached)),
        reuse(cached).result == Ok::<TokenEnvelope, GatewayErrorView>(cached_envelope(cached)),
        cached_envelope(cached).data == Some(cached),
        reuse(cached).sent.len() == 0,
        reuse(cached).stored.len() == 0,
{
    lemma_search_finishes(credentials, world);
}

/// Where there is no cache file, the lookup is a miss, and with a remote side
/// that answers with a token the search succeeds with the remote envelope;
/// its token is written once.
pub proof fn lemma_absent_cache_leads_to_fetch(credentials: AuthConfigView, world: World)
    requires
        world.lookup == CacheLookupView::Missing,
        remote_succeeds(world),
    ensures
        cache_verdict(world.lookup, world.now) == Err::<AccessTokenView, CacheError>(
            CacheError::Miss,
        ),
        search(credentials, world) == Some(
            Run {
                result: Ok(world.decoded->0),
                sent: seq![access_token_request(credentials)],
                stored: seq![world.decoded->0.data->0],
            },
        ),
{
    lemma_search_finishes(credentials, world);
}

/// The same holds of every other reason for which the cache gives no token:
/// a search does not tell a miss from an expiry, a file that does not hold a
/// token, or a failure of the file system.
pub proof fn lemma_cache_failure_leads_to_fetch(credentials: AuthConfigView, world: World)
    requires
        cache_verdict(world.lookup, world.now) is Err,
        remote_succeeds(world),
    ensures
        search(credentials, world) == Some(
            Run {
                result: Ok(world.decoded->0),
                sent: seq![access_token_request(credentials)],
                stored: seq![world.decoded->0.data->0],
            },
        ),
{
    lemma_search_finishes(credentials, world);
}

/// Where the token endpoint answers with a status outside 200..300, the
/// search fails with exactly that status and body, and nothing is handed out
/// to be written: the cache stays as it is.
pub proof fn lemma_auth_refusal_is_reported(
    credentials: AuthConfigView,
    world: World,
    status: u16,
    body: Seq<char>,
)
    requires
        cache_verdict(world.lookup, world.now) is Err,
        world.reply == (HttpReplyView::Answered { status, body: Some(body) }),
        !is_success_status(status),
    ensures
        search(credentials, world) == Some(
            Run {
                result: Err(GatewayErrorView::AuthRequestFailed { status, body }),
                sent: seq![access_token_request(credentials)],
                stored: Seq::empty(),
            },
        ),
{
    lemma_search_finishes(credentials, world);
}

/// Whether writing the cache works does not change what a search does or
/// comes to: a failed write is not a failed search.
pub proof fn lemma_write_failure_is_not_fatal(credentials: AuthConfigView, world: World)
    ensures
        search(credentials, World { persisted: false, ..world }) == search(
            credentials,
            World { persisted: true, ..world },
        ),
        (cache_verdict(world.lookup, world.now) is Err && remote_succeeds(world)) ==> search(
            credentials,
            World { persisted: false, ..world },
        )->0.result == Ok::<TokenEnvelope, GatewayErrorView>(world.decoded->0),
{
    lemma_search_finishes(credentials, World { persisted: false, ..world });
    lemma_search_finishes(credentials, World { persisted: true, ..world });
}

/// A failure of the fetch is the result of the search as it is: what could
/// not be sent is a transport error, what does not decode is a decoding
/// error with the body.
pub proof fn lemma_fetch_failure_is_propagated(credentials: AuthConfigView, world: World)
    requires
        cache_verdict(world.lookup, world.now) is Err,
    ensures
        search(credentials, world) is Some,
        world.reply matches HttpReplyView::Unsent { detail } ==> search(credentials, world)->0.result
            == Err::<TokenEnvelope, GatewayErrorView>(GatewayErrorView::Transport { detail }),
        (world.reply matches HttpReplyView::Answered { status, body } && is_success_status(status)
            && world.decoded is None) ==> search(credentials, world)->0.result == Err::<
            TokenEnvelope,
            GatewayErrorView,
        >(GatewayErrorView::Decode { raw: body_text(world.reply->body) }),
{
    lemma_search_finishes(credentials, world);
}

/// A token that one search handed out to be written is, once a later lookup
/// finds it in the cache and while it is valid, the token that the later
/// search hands out: equal in the text and in the instant of expiry.
pub proof fn lemma_kept_token_is_found_again(
    credentials: AuthConfigView,
    earlier: World,
    later: World,
    kept: AccessTokenView,
)
    requires
        search(credentials, earlier) is Some,
        search(credentials, earlier)->0.stored == seq![kept],
        later.lookup == CacheLookupView::Record(kept),
        later.now.is_before(kept.expired_at),
    ensures
        search(credentials, earlier)->0.result matches Ok(envelope) && envelope.data == Some(kept),
        search(credentials, later) == Some(reuse(kept)),
        reuse(kept).result->Ok_0.data == Some(kept),
{
    lemma_search_finishes(credentials, earlier);
    lemma_search_finishes(credentials, later);
    let run = search(credentials, earlier)->0;
    assert(run.stored.len() == 1);
    assert(run.stored[0] == kept);
}

} // verus!
