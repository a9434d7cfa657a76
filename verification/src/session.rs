//! One whole passage through the gateway: find a token, then make the call
//! with it.
//!
//! A session performs nothing itself. It hands out an action; whoever runs
//! it performs the action and hands back what happened.

use crate::auth_api::{
    access_token_and_cache, lemma_provider_stays_well_formed, lemma_search_finishes, provider_next,
    search, ProviderAction, ProviderActionView, ProviderEvent, ProviderEventView, Run,
    TokenProvider, TokenProviderView, World,
};
use crate::config::{AuthConfig, AuthConfigView, PlatformConfigView};
use crate::dispatch::{
    call_result, dispatch_next, DispatchAction, DispatchActionView, DispatchEvent,
    DispatchEventView, Dispatcher, DispatcherView, GatewayError, GatewayErrorView, HttpReply,
    HttpReplyView,
};
use crate::envelope::{AccessTokenResponse, ApiResponse};
use crate::file_api::{
    download, download_request, file_lists_query, file_lists_query_request, file_query,
    file_query_request, file_search, file_search_request, file_upload, file_upload_request,
    files_info, files_info_request, mkdir, mkdir_request, move_file, move_file_request, user_info,
    user_info_request,
};
use crate::file_info::{
    EntryItem, FileListQuery, FileMoveInfo, FileQuery, FileSearchItem, FilesQuery, UploadFileItem,
};
use crate::request::{bearer_of, ApiRequest, ApiRequestView, Method};
use crate::share_file_api::{
    change_share_list_info, change_share_list_info_request, pay_link, pay_link_request,
    payment_list, payment_list_request, share_create, share_create_request, share_list,
    share_list_info, share_list_info_request, share_list_request,
};
use crate::share_file_config::{PayLinkItem, ShareItem, ShareLinkItem, ShareQuery};
use crate::token::{now, AccessToken, AccessTokenView, Instant};
use crate::token_store::CacheLookup;
use vstd::prelude::*;

verus! {

/// A call to a resource endpoint, with what it is to carry.
#[derive(Debug)]
pub enum Call {
    FileLists(FileListQuery),
    FileDetail(FileQuery),
    FilesInfo(FilesQuery),
    Mkdir(EntryItem),
    Download(FileQuery),
    Search(FileSearchItem),
    Move(FileMoveInfo),
    Upload(UploadFileItem),
    UserInfo,
    ShareCreate(ShareItem),
    ShareList(ShareQuery),
    ShareListInfo(ShareLinkItem),
    PayLink(PayLinkItem),
    PaymentList(ShareQuery),
    ChangeShareListInfo(ShareLinkItem),
}

/// The request that makes `call` with `token`.
pub open spec fn request_of(call: Call, token: AccessTokenView) -> ApiRequestView {
    match call {
        Call::FileLists(query) => file_lists_query_request(query, token),
        Call::FileDetail(query) => file_query_request(query, token),
        Call::FilesInfo(payload) => files_info_request(payload, token),
        Call::Mkdir(payload) => mkdir_request(payload, token),
        Call::Download(query) => download_request(query, token),
        Call::Search(query) => file_search_request(query, token),
        Call::Move(payload) => move_file_request(payload, token),
        Call::Upload(payload) => file_upload_request(payload, token),
        Call::UserInfo => user_info_request(token),
        Call::ShareCreate(payload) => share_create_request(payload, token),
        Call::ShareList(query) => share_list_request(query, token),
        Call::ShareListInfo(payload) => share_list_info_request(payload, token),
        Call::PayLink(payload) => pay_link_request(payload, token),
        Call::PaymentList(query) => payment_list_request(query, token),
        Call::ChangeShareListInfo(payload) => change_share_list_info_request(payload, token),
    }
}

/// Every call goes to the standard platform over HTTPS and carries the token
/// as bearer and the platform header. A reading call carries no body; a
/// writing call carries a body and no query.
pub proof fn lemma_every_call_is_authorized(call: Call, token: AccessTokenView)
    ensures
        ({
            let request = request_of(call, token);
            let platform = PlatformConfigView::standard();
            &&& ("https://"@ + platform.platform_domain).is_prefix_of(request.url)
            &&& request.headers.len() >= 2
            &&& request.headers[0] == ("Authorization"@, bearer_of(token))
            &&& request.headers[1] == ("Platform"@, platform.platform)
            &&& request.method == Method::Get <==> request.body is None
            &&& request.method != Method::Get ==> request.query.len() == 0
        }),
{
    let request = request_of(call, token);
    let platform = PlatformConfigView::standard();
    let host = "https://"@ + platform.platform_domain;
    assert(request.url.subrange(0, host.len() as int) =~= host);
}

/// Builds the request that makes `call` with `token`.
pub fn plan(call: Call, token: &AccessToken) -> (r: ApiRequest)
    ensures
        r@ == request_of(call, token@),
{
    match call {
        Call::FileLists(query) => file_lists_query(query, token),
        Call::FileDetail(query) => file_query(query, token),
        Call::FilesInfo(payload) => files_info(payload, token),
        Call::Mkdir(payload) => mkdir(payload, token),
        Call::Download(query) => download(query, token),
        Call::Search(query) => file_search(query, token),
        Call::Move(payload) => move_file(payload, token),
        Call::Upload(payload) => file_upload(payload, token),
        Call::UserInfo => user_info(token),
        Call::ShareCreate(payload) => share_create(payload, token),
        Call::ShareList(query) => share_list(query, token),
        Call::ShareListInfo(payload) => share_list_info(payload, token),
        Call::PayLink(payload) => pay_link(payload, token),
        Call::PaymentList(query) => payment_list(query, token),
        Call::ChangeShareListInfo(payload) => change_share_list_info(payload, token),
    }
}

/// Where a session stands.
#[derive(Debug)]
enum Phase {
    Authorising { provider: TokenProvider, call: Call },
    Calling { dispatcher: Dispatcher },
    Finished,
}

/// A session: first the search for a token, then the call.
#[derive(Debug)]
pub struct Session {
    phase: Phase,
}

/// What a [`Session`] holds.
pub enum SessionView {
    /// A token is being searched for; `call` waits for it.
    Authorising { provider: TokenProviderView, call: Call },
    /// The call is under way.
    Calling { dispatcher: DispatcherView },
    /// The result was handed out.
    Finished,
}

impl View for Session {
    type V = SessionView;

    closed spec fn view(&self) -> SessionView {
        match self.phase {
            Phase::Authorising { provider, call } => SessionView::Authorising {
                provider: provider@,
                call,
            },
            Phase::Calling { dispatcher } => SessionView::Calling { dispatcher: dispatcher@ },
            Phase::Finished => SessionView::Finished,
        }
    }
}

/// What happened when an action of a session was performed.
#[derive(Debug)]
pub enum SessionEvent<T> {
    /// The cache was read.
    Looked(CacheLookup),
    /// The request for a token was sent, or sending it failed.
    TokenReplied(HttpReply),
    /// The body of the token endpoint was decoded, or could not be.
    TokenDecoded(Option<AccessTokenResponse>),
    /// The token was written to the cache (`true`), or writing failed.
    Persisted(bool),
    /// The call was sent, or sending it failed.
    CallReplied(HttpReply),
    /// The body of the call was decoded, or could not be.
    CallDecoded(Option<ApiResponse<T>>),
}

/// What a [`SessionEvent`] holds.
pub enum SessionEventView<T> {
    Token(ProviderEventView),
    Call(DispatchEventView<T>),
}

impl<T> View for SessionEvent<T> {
    type V = SessionEventView<T>;

    open spec fn view(&self) -> SessionEventView<T> {
        match self {
            SessionEvent::Looked(lookup) => SessionEventView::Token(
                ProviderEventView::Looked(lookup@),
            ),
            SessionEvent::TokenReplied(reply) => SessionEventView::Token(
                ProviderEventView::Replied(reply@),
            ),
            SessionEvent::TokenDecoded(decoded) => SessionEventView::Token(
                ProviderEventView::Decoded(decoded.deep_view()),
            ),
            SessionEvent::Persisted(ok) => SessionEventView::Token(
                ProviderEventView::Persisted(*ok),
            ),
            SessionEvent::CallReplied(reply) => SessionEventView::Call(
                DispatchEventView::Replied(reply@),
            ),
            SessionEvent::CallDecoded(decoded) => SessionEventView::Call(
                DispatchEventView::Decoded(*decoded),
            ),
        }
    }
}

/// What a session asks to be done next.
#[derive(Debug)]
pub enum SessionAction<T> {
    /// Read the cache file.
    ReadCache,
    /// Send this request for a token, once.
    SendTokenRequest(ApiRequest),
    /// Decode this body as the envelope of the token endpoint.
    DecodeToken(String),
    /// Write this token to the cache file, in place of what it holds.
    Persist(AccessToken),
    /// Send this call, once.
    SendCall(ApiRequest),
    /// Decode this body as the envelope of the call.
    DecodeCall(String),
    /// The session is over, with this result.
    Finish(Result<ApiResponse<T>, GatewayError>),
    /// The event does not answer what was asked for; nothing has changed.
    Unexpected,
}

/// What a [`SessionAction`] holds.
pub enum SessionActionView<T> {
    ReadCache,
    SendTokenRequest(ApiRequestView),
    DecodeToken(Seq<char>),
    Persist(AccessTokenView),
    SendCall(ApiRequestView),
    DecodeCall(Seq<char>),
    Finish(Result<ApiResponse<T>, GatewayErrorView>),
    Unexpected,
}

impl<T> View for SessionAction<T> {
    type V = SessionActionView<T>;

    open spec fn view(&self) -> SessionActionView<T> {
        match self {
            SessionAction::ReadCache => SessionActionView::ReadCache,
            SessionAction::SendTokenRequest(request) => SessionActionView::SendTokenRequest(
                request@,
            ),
            SessionAction::DecodeToken(body) => SessionActionView::DecodeToken(body@),
            SessionAction::Persist(token) => SessionActionView::Persist(token@),
            SessionAction::SendCall(request) => SessionActionView::SendCall(request@),
            SessionAction::DecodeCall(body) => SessionActionView::DecodeCall(body@),
            SessionAction::Finish(result) => SessionActionView::Finish(
                match result {
                    Ok(envelope) => Ok(*envelope),
                    Err(e) => Err(e@),
                },
            ),
            SessionAction::Unexpected => SessionActionView::Unexpected,
        }
    }
}

/// The transition of a session at the instant `now`.
///
/// While a token is searched for, the session does what the token provider
/// does. When the provider finishes with a token, the call is sent with
/// exactly that token; when it finishes with a failure, so does the session,
/// and the call is never sent. From then on the session does what the call
/// does, and the result of the call is the result of the session. Nothing
/// leads back: no step is tried twice.
pub open spec fn session_next<T>(state: SessionView, event: SessionEventView<T>, now: Instant) -> (
    SessionView,
    SessionActionView<T>,
) {
    match (state, event) {
        (SessionView::Authorising { provider, call }, SessionEventView::Token(e)) => {
            let next = provider_next(provider, e, now);
            match next.1 {
                ProviderActionView::ReadCache => (
                    SessionView::Authorising { provider: next.0, call },
                    SessionActionView::ReadCache,
                ),
                ProviderActionView::Send(request) => (
                    SessionView::Authorising { provider: next.0, call },
                    SessionActionView::SendTokenRequest(request),
                ),
                ProviderActionView::Decode(body) => (
                    SessionView::Authorising { provider: next.0, call },
                    SessionActionView::DecodeToken(body),
                ),
                ProviderActionView::Persist(token) => (
                    SessionView::Authorising { provider: next.0, call },
                    SessionActionView::Persist(token),
                ),
                ProviderActionView::Finish(Ok(envelope)) => if envelope.data is Some {
                    (
                        SessionView::Calling { dispatcher: DispatcherView::AwaitingReply },
                        SessionActionView::SendCall(request_of(call, envelope.data->0)),
                    )
                } else {
                    (state, SessionActionView::Unexpected)
                },
                ProviderActionView::Finish(Err(e)) => (
                    SessionView::Finished,
                    SessionActionView::Finish(Err(e)),
                ),
                ProviderActionView::Unexpected => (state, SessionActionView::Unexpected),
            }
        },
        (SessionView::Calling { dispatcher }, SessionEventView::Call(e)) => {
            let next = dispatch_next(dispatcher, e);
            match next.1 {
                DispatchActionView::Send(request) => (
                    SessionView::Calling { dispatcher: next.0 },
                    SessionActionView::SendCall(request),
                ),
                DispatchActionView::Decode(body) => (
                    SessionView::Calling { dispatcher: next.0 },
                    SessionActionView::DecodeCall(body),
                ),
                DispatchActionView::Finish(result) => (
                    SessionView::Finished,
                    SessionActionView::Finish(result),
                ),
                DispatchActionView::Unexpected => (state, SessionActionView::Unexpected),
            }
        },
        _ => (state, SessionActionView::Unexpected),
    }
}

impl Session {
    #[verifier::type_invariant]
    spec fn inv(self) -> bool {
        self.phase matches Phase::Authorising { provider, call } ==> provider@.well_formed()
    }

    /// Whether the search for a token within the session is well formed.
    pub open spec fn well_formed(view: SessionView) -> bool {
        view matches SessionView::Authorising { provider, call } ==> provider.well_formed()
    }

    /// Begins a session that is to make `call` for `credentials`: the cache
    /// is to be read.
    pub fn begin<T>(credentials: AuthConfig, call: Call) -> (r: (Session, SessionAction<T>))
        ensures
            r.0@ == (SessionView::Authorising {
                provider: TokenProviderView::LookingUp { credentials: credentials@ },
                call,
            }),
            r.1@ == SessionActionView::<T>::ReadCache,
    {
        let (provider, _) = access_token_and_cache(credentials);
        (Session { phase: Phase::Authorising { provider, call } }, SessionAction::ReadCache)
    }

    /// Takes the session one step on, at the instant `now`.
    pub fn step_at<T>(self, event: SessionEvent<T>, now: &Instant) -> (r: (
        Session,
        SessionAction<T>,
    ))
        ensures
            (r.0@, r.1@) == session_next(self@, event@, *now),
            Session::well_formed(r.0@),
    {
        proof {
            use_type_invariant(&self);
        }
        match self.phase {
            Phase::Authorising { provider, call } => {
                let provider_event = match event {
                    SessionEvent::Looked(lookup) => ProviderEvent::Looked(lookup),
                    SessionEvent::TokenReplied(reply) => ProviderEvent::Replied(reply),
                    SessionEvent::TokenDecoded(decoded) => ProviderEvent::Decoded(decoded),
                    SessionEvent::Persisted(ok) => ProviderEvent::Persisted(ok),
                    _ => {
                        return (
                            Session { phase: Phase::Authorising { provider, call } },
                            SessionAction::Unexpected,
                        );
                    },
                };
                proof {
                    lemma_provider_stays_well_formed(provider@, provider_event@, *now);
                }
                let (next, action) = provider.step_at(provider_event, now);
                match action {
                    ProviderAction::ReadCache => (
                        Session { phase: Phase::Authorising { provider: next, call } },
                        SessionAction::ReadCache,
                    ),
                    ProviderAction::Send(request) => (
                        Session { phase: Phase::Authorising { provider: next, call } },
                        SessionAction::SendTokenRequest(request),
                    ),
                    ProviderAction::Decode(body) => (
                        Session { phase: Phase::Authorising { provider: next, call } },
                        SessionAction::DecodeToken(body),
                    ),
                    ProviderAction::Persist(token) => (
                        Session { phase: Phase::Authorising { provider: next, call } },
                        SessionAction::Persist(token),
                    ),
                    ProviderAction::Finish(Ok(envelope)) => match envelope.data {
                        Some(token) => (
                            Session {
                                phase: Phase::Calling { dispatcher: Dispatcher::AwaitingReply },
                            },
                            SessionAction::SendCall(plan(call, &token)),
                        ),
                        None => (
                            Session { phase: Phase::Authorising { provider: next, call } },
                            SessionAction::Unexpected,
                        ),
                    },
                    ProviderAction::Finish(Err(e)) => (
                        Session { phase: Phase::Finished },
                        SessionAction::Finish(Err(e)),
                    ),
                    ProviderAction::Unexpected => (
                        Session { phase: Phase::Authorising { provider: next, call } },
                        SessionAction::Unexpected,
                    ),
                }
            },
            Phase::Calling { dispatcher } => {
                let call_event = match event {
                    SessionEvent::CallReplied(reply) => DispatchEvent::Replied(reply),
                    SessionEvent::CallDecoded(decoded) => DispatchEvent::Decoded(decoded),
                    _ => {
                        return (
                            Session { phase: Phase::Calling { dispatcher } },
                            SessionAction::Unexpected,
                        );
                    },
                };
                let (next, action) = dispatcher.step(call_event);
                match action {
                    DispatchAction::Send(request) => (
                        Session { phase: Phase::Calling { dispatcher: next } },
                        SessionAction::SendCall(request),
                    ),
                    DispatchAction::Decode(body) => (
                        Session { phase: Phase::Calling { dispatcher: next } },
                        SessionAction::DecodeCall(body),
                    ),
                    DispatchAction::Finish(result) => (
                        Session { phase: Phase::Finished },
                        SessionAction::Finish(result),
                    ),
                    DispatchAction::Unexpected => (
                        Session { phase: Phase::Calling { dispatcher: next } },
                        SessionAction::Unexpected,
                    ),
                }
            },
            Phase::Finished => (Session { phase: Phase::Finished }, SessionAction::Unexpected),
        }
    }

    /// Takes the session one step on, at the present instant as the system
    /// clock gives it: the result is that of [`Session::step_at`] at some
    /// instant, and at every instant where the event is not the finding of a
    /// cached token.
    pub fn step<T>(self, event: SessionEvent<T>) -> (r: (Session, SessionAction<T>))
        ensures
            exists|at: Instant| #[trigger] session_next(self@, event@, at) == (r.0@, r.1@),
            !(event matches SessionEvent::Looked(CacheLookup::Record(_))) ==> forall|at: Instant|
                #[trigger] session_next(self@, event@, at) == (r.0@, r.1@),
            Session::well_formed(r.0@),
    {
        // Only the verdict on a cached token depends on the time.
        let at: Instant = match &event {
            SessionEvent::Looked(CacheLookup::Record(_)) => now(),
            _ => Instant::new(0, 0),
        };
        let r = self.step_at(event, &at);
        assert(session_next(self@, event@, at) == (r.0@, r.1@));
        r
    }
}

/// What the actions of one session come to: the world of the search for a
/// token, and what sending the call and decoding its body come to.
pub struct SessionWorld<T> {
    pub token: World,
    pub reply: HttpReplyView,
    pub decoded: Option<ApiResponse<T>>,
}

/// What one session did and came to.
pub struct Passage<T> {
    /// The result that was handed out.
    pub result: Result<ApiResponse<T>, GatewayErrorView>,
    /// The requests for a token that were handed out to be sent, in order.
    pub sent: Seq<ApiRequestView>,
    /// The tokens that were handed out to be written to the cache, in order.
    pub stored: Seq<AccessTokenView>,
    /// The calls that were handed out to be sent, in order.
    pub calls: Seq<ApiRequestView>,
}

/// Runs a session from `state`, where `action` is pending, for at most
/// `fuel` actions: each action is answered as `world` says. `None` where the
/// session does not finish in that many actions.
pub open spec fn proceed<T>(
    state: SessionView,
    action: SessionActionView<T>,
    world: SessionWorld<T>,
    so_far: Passage<T>,
    fuel: nat,
) -> Option<Passage<T>>
    decreases fuel,
{
    if fuel == 0 {
        None
    } else {
        let at = world.token.now;
        match action {
            SessionActionView::Finish(result) => Some(Passage { result, ..so_far }),
            SessionActionView::Unexpected => None,
            SessionActionView::ReadCache => {
                let e = SessionEventView::Token(ProviderEventView::Looked(world.token.lookup));
                let next = session_next(state, e, at);
                proceed(next.0, next.1, world, so_far, (fuel - 1) as nat)
            },
            SessionActionView::SendTokenRequest(request) => {
                let e = SessionEventView::Token(ProviderEventView::Replied(world.token.reply));
                let next = session_next(state, e, at);
                proceed(
                    next.0,
                    next.1,
                    world,
                    Passage { sent: so_far.sent.push(request), ..so_far },
                    (fuel - 1) as nat,
                )
            },
            SessionActionView::DecodeToken(_) => {
                let e = SessionEventView::Token(ProviderEventView::Decoded(world.token.decoded));
                let next = session_next(state, e, at);
                proceed(next.0, next.1, world, so_far, (fuel - 1) as nat)
            },
            SessionActionView::Persist(token) => {
                let e = SessionEventView::Token(
                    ProviderEventView::Persisted(world.token.persisted),
                );
                let next = session_next(state, e, at);
                proceed(
                    next.0,
                    next.1,
                    world,
                    Passage { stored: so_far.stored.push(token), ..so_far },
                    (fuel - 1) as nat,
                )
            },
            SessionActionView::SendCall(request) => {
                let e = SessionEventView::Call(DispatchEventView::Replied(world.reply));
                let next = session_next(state, e, at);
                proceed(
                    next.0,
                    next.1,
                    world,
                    Passage { calls: so_far.calls.push(request), ..so_far },
                    (fuel - 1) as nat,
                )
            },
            SessionActionView::DecodeCall(_) => {
                let e = SessionEventView::Call(DispatchEventView::Decoded(world.decoded));
                let next = session_next(state, e, at);
                proceed(next.0, next.1, world, so_far, (fuel - 1) as nat)
            },
        }
    }
}

/// One whole session that is to make `call` for `credentials` in `world`.
/// Seven actions are the longest session there is: read, send, decode,
/// write, send, decode, finish.
pub open spec fn passage<T>(credentials: AuthConfigView, call: Call, world: SessionWorld<T>) -> Option<
    Passage<T>,
> {
    proceed(
        SessionView::Authorising {
            provider: TokenProviderView::LookingUp { credentials },
            call,
        },
        SessionActionView::ReadCache,
        world,
        Passage {
            result: Err(GatewayErrorView::Transport { detail: Seq::empty() }),
            sent: Seq::empty(),
            stored: Seq::empty(),
            calls: Seq::empty(),
        },
        7,
    )
}

/// What a session comes to, given what its search for a token came to.
pub open spec fn search_then_call<T>(run: Run, call: Call, world: SessionWorld<T>) -> Passage<T> {
    match run.result {
        Ok(envelope) => Passage {
            result: call_result(world.reply, world.decoded),
            sent: run.sent,
            stored: run.stored,
            calls: seq![request_of(call, envelope.data->0)],
        },
        Err(e) => Passage {
            result: Err(e),
            sent: run.sent,
            stored: run.stored,
            calls: Seq::empty(),
        },
    }
}

/// Every session finishes, and it is the search for a token followed by the
/// call. Where the search fails, its failure is the result and no call is
/// sent. Where it finds a token, the call is sent once, with exactly that
/// token, and the result of the call is the result of the session.
pub proof fn lemma_session_is_search_then_call<T>(
    credentials: AuthConfigView,
    call: Call,
    world: SessionWorld<T>,
)
    ensures
        search(credentials, world.token) is Some,
        passage(credentials, call, world) == Some(
            search_then_call(search(credentials, world.token)->0, call, world),
        ),
{
    reveal_with_fuel(proceed, 8);
    lemma_search_finishes(credentials, world.token);
    let run = search(credentials, world.token)->0;
    let got = passage(credentials, call, world)->0;
    let want = search_then_call(run, call, world);
    assert(got.sent =~= want.sent);
    assert(got.stored =~= want.stored);
    assert(got.calls =~= want.calls);
}

} // verus!
