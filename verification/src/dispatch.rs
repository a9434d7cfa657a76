//! The request pipeline: how the answer to a request is judged, and the
//! machine that takes one request from sending to its result.
//!
//! The machine performs nothing itself. It hands out an action; whoever runs
//! it performs the action and hands back what happened.

use crate::envelope::ApiResponse;
use crate::request::{ApiRequest, ApiRequestView};
use vstd::prelude::*;

verus! {

/// Why a call through the gateway failed.
#[derive(Debug)]
pub enum GatewayError {
    /// The request could not be sent, or no response came back.
    Transport { detail: String },
    /// The token endpoint answered with a status outside 200..300.
    AuthRequestFailed { status: u16, body: String },
    /// A resource endpoint answered with a status outside 200..300.
    ApiRequestFailed { status: u16, body: String },
    /// The body of a successful response is not the envelope that was
    /// expected; `raw` is that body.
    Decode { raw: String },
}

/// What a [`GatewayError`] holds.
pub enum GatewayErrorView {
    Transport { detail: Seq<char> },
    AuthRequestFailed { status: u16, body: Seq<char> },
    ApiRequestFailed { status: u16, body: Seq<char> },
    Decode { raw: Seq<char> },
}

impl View for GatewayError {
    type V = GatewayErrorView;

    open spec fn view(&self) -> GatewayErrorView {
        match self {
            GatewayError::Transport { detail } => GatewayErrorView::Transport { detail: detail@ },
            GatewayError::AuthRequestFailed { status, body } => GatewayErrorView::AuthRequestFailed {
                status: *status,
                body: body@,
            },
            GatewayError::ApiRequestFailed { status, body } => GatewayErrorView::ApiRequestFailed {
                status: *status,
                body: body@,
            },
            GatewayError::Decode { raw } => GatewayErrorView::Decode { raw: raw@ },
        }
    }
}

impl DeepView for GatewayError {
    type V = GatewayErrorView;

    open spec fn deep_view(&self) -> GatewayErrorView {
        self@
    }
}

/// Which kind of endpoint a request goes to. It decides under which name a
/// refusal is reported.
#[derive(Debug, Clone, Copy, PartialEq, Eq, Structural)]
pub enum Endpoint {
    Token,
    Resource,
}

/// What sending a request came to.
#[derive(Debug)]
pub enum HttpReply {
    /// The request could not be sent, or no response came back.
    Unsent { detail: String },
    /// A response came back. `body` is its text, or `None` where the text
    /// could not be read.
    Answered { status: u16, body: Option<String> },
}

/// What an [`HttpReply`] holds.
pub enum HttpReplyView {
    Unsent { detail: Seq<char> },
    Answered { status: u16, body: Option<Seq<char>> },
}

impl View for HttpReply {
    type V = HttpReplyView;

    open spec fn view(&self) -> HttpReplyView {
        match self {
            HttpReply::Unsent { detail } => HttpReplyView::Unsent { detail: detail@ },
            HttpReply::Answered { status, body } => HttpReplyView::Answered {
                status: *status,
                body: body.deep_view(),
            },
        }
    }
}

/// Whether a status stands for success: 200 up to, not including, 300.
pub open spec fn is_success_status(status: u16) -> bool {
    200 <= status < 300
}

/// Decides whether a status stands for success.
pub fn is_success(status: u16) -> (r: bool)
    ensures
        r == is_success_status(status),
{
    200 <= status && status < 300
}

/// The text of a body: empty where the body could not be read.
pub open spec fn body_text(body: Option<Seq<char>>) -> Seq<char> {
    match body {
        Some(text) => text,
        None => Seq::empty(),
    }
}

/// The error that reports a refusal by an endpoint of the given kind.
pub open spec fn refusal(endpoint: Endpoint, status: u16, body: Seq<char>) -> GatewayErrorView {
    match endpoint {
        Endpoint::Token => GatewayErrorView::AuthRequestFailed { status, body },
        Endpoint::Resource => GatewayErrorView::ApiRequestFailed { status, body },
    }
}

/// The verdict on a reply: the text to decode where the endpoint answered
/// with success, else the error. Status and body of a refusal are reported
/// as they came.
pub open spec fn reply_verdict(endpoint: Endpoint, reply: HttpReplyView) -> Result<
    Seq<char>,
    GatewayErrorView,
> {
    match reply {
        HttpReplyView::Unsent { detail } => Err(GatewayErrorView::Transport { detail }),
        HttpReplyView::Answered { status, body } => if is_success_status(status) {
            Ok(body_text(body))
        } else {
            Err(refusal(endpoint, status, body_text(body)))
        },
    }
}

/// The view of a `Result` whose both sides have one.
pub open spec fn result_view<A: DeepView, B: DeepView>(r: Result<A, B>) -> Result<A::V, B::V> {
    match r {
        Ok(a) => Ok(a.deep_view()),
        Err(b) => Err(b.deep_view()),
    }
}

/// Judges a reply.
pub fn judge_reply(endpoint: Endpoint, reply: HttpReply) -> (r: Result<String, GatewayError>)
    ensures
        result_view(r) == reply_verdict(endpoint, reply@),
{
    match reply {
        HttpReply::Unsent { detail } => Err(GatewayError::Transport { detail }),
        HttpReply::Answered { status, body } => {
            let text: String = match body {
                Some(text) => text,
                None => String::new(),
            };
            if is_success(status) {
                Ok(text)
            } else {
                match endpoint {
                    Endpoint::Token => Err(GatewayError::AuthRequestFailed { status, body: text }),
                    Endpoint::Resource => Err(GatewayError::ApiRequestFailed { status, body: text }),
                }
            }
        },
    }
}

/// The verdict on an attempt to decode `body`: what was decoded, or the
/// error that carries the body.
pub open spec fn decoding_verdict<E>(body: Seq<char>, decoded: Option<E>) -> Result<
    E,
    GatewayErrorView,
> {
    match decoded {
        Some(envelope) => Ok(envelope),
        None => Err(GatewayErrorView::Decode { raw: body }),
    }
}

/// Judges an attempt to decode `body`. The envelope is handed on as it was
/// decoded: its code and message are not looked at.
pub fn judge_decoding<T>(body: String, decoded: Option<ApiResponse<T>>) -> (r: Result<
    ApiResponse<T>,
    GatewayError,
>)
    ensures
        match r {
            Ok(envelope) => Ok(envelope),
            Err(e) => Err(e@),
        } == decoding_verdict(body@, decoded),
{
    match decoded {
        Some(envelope) => Ok(envelope),
        None => Err(GatewayError::Decode { raw: body }),
    }
}

/// Where a call stands.
#[derive(Debug)]
pub enum Dispatcher {
    /// The request was handed out; its reply is awaited.
    AwaitingReply,
    /// The body was handed out; its decoding is awaited.
    AwaitingDecoding { body: String },
    /// The result was handed out.
    Finished,
}

/// What a [`Dispatcher`] holds.
pub enum DispatcherView {
    AwaitingReply,
    AwaitingDecoding { body: Seq<char> },
    Finished,
}

impl View for Dispatcher {
    type V = DispatcherView;

    open spec fn view(&self) -> DispatcherView {
        match self {
            Dispatcher::AwaitingReply => DispatcherView::AwaitingReply,
            Dispatcher::AwaitingDecoding { body } => DispatcherView::AwaitingDecoding {
                body: body@,
            },
            Dispatcher::Finished => DispatcherView::Finished,
        }
    }
}

/// What happened when an action of a call was performed.
#[derive(Debug)]
pub enum DispatchEvent<T> {
    /// The request was sent, or sending it failed.
    Replied(HttpReply),
    /// The body was decoded, or is not the envelope that was expected.
    Decoded(Option<ApiResponse<T>>),
}

/// What a [`DispatchEvent`] holds.
pub enum DispatchEventView<T> {
    Replied(HttpReplyView),
    Decoded(Option<ApiResponse<T>>),
}

impl<T> View for DispatchEvent<T> {
    type V = DispatchEventView<T>;

    open spec fn view(&self) -> DispatchEventView<T> {
        match self {
            DispatchEvent::Replied(reply) => DispatchEventView::Replied(reply@),
            DispatchEvent::Decoded(decoded) => DispatchEventView::Decoded(*decoded),
        }
    }
}

/// What a call asks to be done next.
#[derive(Debug)]
pub enum DispatchAction<T> {
    /// Send this request, once.
    Send(ApiRequest),
    /// Decode this body as the envelope of the endpoint.
    Decode(String),
    /// The call is over, with this result.
    Finish(Result<ApiResponse<T>, GatewayError>),
    /// The event does not answer what was asked for; nothing has changed.
    Unexpected,
}

/// What a [`DispatchAction`] holds.
pub enum DispatchActionView<T> {
    Send(ApiRequestView),
    Decode(Seq<char>),
    Finish(Result<ApiResponse<T>, GatewayErrorView>),
    Unexpected,
}

impl<T> View for DispatchAction<T> {
    type V = DispatchActionView<T>;

    open spec fn view(&self) -> DispatchActionView<T> {
        match self {
            DispatchAction::Send(request) => DispatchActionView::Send(request@),
            DispatchAction::Decode(body) => DispatchActionView::Decode(body@),
            DispatchAction::Finish(result) => DispatchActionView::Finish(
                match result {
                    Ok(envelope) => Ok(*envelope),
                    Err(e) => Err(e@),
                },
            ),
            DispatchAction::Unexpected => DispatchActionView::Unexpected,
        }
    }
}

/// The transition of a call: the state after `event`, and what to do next.
///
/// A reply is judged as that of a resource endpoint. A refusal or a failure
/// to send ends the call at once; a success has its body decoded, and the
/// decoded envelope is the result, unchanged.
pub open spec fn dispatch_next<T>(state: DispatcherView, event: DispatchEventView<T>) -> (
    DispatcherView,
    DispatchActionView<T>,
) {
    match (state, event) {
        (DispatcherView::AwaitingReply, DispatchEventView::Replied(reply)) => match reply_verdict(
            Endpoint::Resource,
            reply,
        ) {
            Ok(body) => (
                DispatcherView::AwaitingDecoding { body },
                DispatchActionView::Decode(body),
            ),
            Err(e) => (DispatcherView::Finished, DispatchActionView::Finish(Err(e))),
        },
        (
            DispatcherView::AwaitingDecoding { body },
            DispatchEventView::Decoded(decoded),
        ) => (
            DispatcherView::Finished,
            DispatchActionView::Finish(decoding_verdict(body, decoded)),
        ),
        _ => (state, DispatchActionView::Unexpected),
    }
}

impl Dispatcher {
    /// Begins a call: the request is to be sent.
    pub fn call<T>(request: ApiRequest) -> (r: (Dispatcher, DispatchAction<T>))
        ensures
            r.0@ == DispatcherView::AwaitingReply,
            r.1@ == DispatchActionView::<T>::Send(request@),
    {
        (Dispatcher::AwaitingReply, DispatchAction::Send(request))
    }

    /// Takes the call one step on.
    pub fn step<T>(self, event: DispatchEvent<T>) -> (r: (Dispatcher, DispatchAction<T>))
        ensures
            (r.0@, r.1@) == dispatch_next(self@, event@),
    {
        match (self, event) {
            (Dispatcher::AwaitingReply, DispatchEvent::Replied(reply)) => {
                match judge_reply(Endpoint::Resource, reply) {
                    Ok(body) => {
                        let copy: String = body.clone();
                        (Dispatcher::AwaitingDecoding { body }, DispatchAction::Decode(copy))
                    },
                    Err(e) => (Dispatcher::Finished, DispatchAction::Finish(Err(e))),
                }
            },
            (Dispatcher::AwaitingDecoding { body }, DispatchEvent::Decoded(decoded)) => {
                (Dispatcher::Finished, DispatchAction::Finish(judge_decoding(body, decoded)))
            },
            (state, _) => (state, DispatchAction::Unexpected),
        }
    }
}

/// The result of a call that is run to its end: `reply` is what sending
/// comes to, `decoded` what decoding the body comes to if it is tried.
pub open spec fn call_result<T>(reply: HttpReplyView, decoded: Option<ApiResponse<T>>) -> Result<
    ApiResponse<T>,
    GatewayErrorView,
> {
    match reply_verdict(Endpoint::Resource, reply) {
        Ok(body) => decoding_verdict(body, decoded),
        Err(e) => Err(e),
    }
}

/// A call that is fed what its actions come to ends with [`call_result`]:
/// after the reply where the endpoint refused or nothing came back, else
/// after the decoding.
pub proof fn lemma_call_runs_to_result<T>(reply: HttpReplyView, decoded: Option<ApiResponse<T>>)
    ensures
        ({
            let first = dispatch_next::<T>(
                DispatcherView::AwaitingReply,
                DispatchEventView::Replied(reply),
            );
            match first.1 {
                DispatchActionView::Finish(result) => result == call_result(reply, decoded)
                    && first.0 == DispatcherView::Finished,
                DispatchActionView::Decode(body) => {
                    let second = dispatch_next(first.0, DispatchEventView::Decoded(decoded));
                    second == (
                        DispatcherView::Finished,
                        DispatchActionView::Finish(call_result(reply, decoded)),
                    )
                },
                _ => false,
            }
        }),
{
}

/// A status outside 200..300 fails the call with exactly that status and
/// the body as it came, whatever the body would decode to.
pub proof fn lemma_refusal_reported_as_is<T>(
    status: u16,
    body: Seq<char>,
    decoded: Option<ApiResponse<T>>,
)
    requires
        !is_success_status(status),
    ensures
        call_result(HttpReplyView::Answered { status, body: Some(body) }, decoded) == Err::<
            ApiResponse<T>,
            GatewayErrorView,
        >(GatewayErrorView::ApiRequestFailed { status, body }),
{
}

/// A success hands on the decoded envelope unchanged, whatever its code and
/// message say; a body that does not decode fails the call with that body.
pub proof fn lemma_success_hands_on_envelope<T>(
    status: u16,
    body: Seq<char>,
    decoded: Option<ApiResponse<T>>,
)
    requires
        is_success_status(status),
    ensures
        call_result(HttpReplyView::Answered { status, body: Some(body) }, decoded) == match decoded {
            Some(envelope) => Ok(envelope),
            None => Err(GatewayErrorView::Decode { raw: body }),
        },
{
}

} // verus!
