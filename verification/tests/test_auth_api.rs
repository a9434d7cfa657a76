use netdisk_core::auth_api::{
    access_token, access_token_and_cache, ProviderAction, ProviderEvent, TokenProvider,
};
use netdisk_core::config::AuthConfig;
use netdisk_core::dispatch::{GatewayError, HttpReply};
use netdisk_core::envelope::{AccessTokenResponse, ApiResponse};
use netdisk_core::request::{Method, Payload};
use netdisk_core::token::{AccessToken, Instant};
use netdisk_core::token_store::CacheLookup;

const NOW: i64 = 1_760_000_000;

fn now() -> Instant {
    Instant::new(NOW, 0)
}

fn credentials() -> AuthConfig {
    AuthConfig::new("my_client_id".to_string(), "my_client_secret".to_string())
}

fn token(name: &str, secs: i64) -> AccessToken {
    AccessToken::new(name.to_string(), Instant::new(secs, 0))
}

fn remote_envelope(name: &str, secs: i64) -> AccessTokenResponse {
    ApiResponse::new(0, "ok".to_string(), token(name, secs), "trace-1".to_string())
}

fn answered(status: u16, body: &str) -> ProviderEvent {
    ProviderEvent::Replied(HttpReply::Answered { status, body: Some(body.to_string()) })
}

/// Starts a search and feeds it the lookup; returns the machine and the action it asks for.
fn after_lookup(lookup: CacheLookup) -> (TokenProvider, ProviderAction) {
    let (provider, first) = access_token_and_cache(credentials());
    assert!(matches!(first, ProviderAction::ReadCache));
    provider.step_at(ProviderEvent::Looked(lookup), &now())
}

fn expect_fetch(action: &ProviderAction) {
    match action {
        ProviderAction::Send(request) => {
            assert_eq!(request.method, Method::Post);
            assert_eq!(request.url, "https://open-api.123pan.com/api/v1/access_token");
            assert_eq!(
                request.headers,
                vec![("Platform".to_string(), "open_platform".to_string())]
            );
            assert!(request.query.is_empty());
            match &request.body {
                Some(Payload::Credentials(c)) => {
                    assert_eq!(c.client_id(), "my_client_id");
                    assert_eq!(c.client_secret(), "my_client_secret");
                }
                other => panic!("unexpected body: {:?}", other),
            }
        }
        other => panic!("expected a fetch, got {:?}", other),
    }
}

#[test]
fn token_request_carries_credentials_and_platform_only() {
    let request = access_token(credentials());
    assert_eq!(request.method, Method::Post);
    assert_eq!(request.url, "https://open-api.123pan.com/api/v1/access_token");
    assert_eq!(request.headers.len(), 1);
    assert_eq!(request.headers[0].0, "Platform");
    assert_eq!(request.headers[0].1, "open_platform");
    assert!(request.headers.iter().all(|h| h.0 != "Authorization"));
    assert!(request.query.is_empty());
    assert!(matches!(request.body, Some(Payload::Credentials(_))));
}

#[test]
fn valid_cached_token_is_returned_without_fetch() {
    let (state, action) = after_lookup(CacheLookup::Record(token("abc", NOW + 7200)));
    assert!(matches!(state, TokenProvider::Finished));
    match action {
        ProviderAction::Finish(Ok(envelope)) => {
            assert_eq!(envelope.code, 200);
            assert_eq!(envelope.message, "响应成功");
            assert_eq!(envelope.x_trace_id, "xtrace");
            let t = envelope.data.unwrap();
            assert_eq!(t.access_token, "abc");
            assert_eq!(t.expired_at, Instant::new(NOW + 7200, 0));
        }
        other => panic!("expected the cached token, got {:?}", other),
    }
}

#[test]
fn expired_cached_token_is_replaced_by_fetched_one() {
    // cache holds "abc", expired an hour ago; the remote side answers "xyz", valid for two hours
    let (state, action) = after_lookup(CacheLookup::Record(token("abc", NOW - 3600)));
    assert!(matches!(state, TokenProvider::Fetching));
    expect_fetch(&action);

    let (state, action) = state.step_at(answered(200, "{\"code\":0}"), &now());
    match &action {
        ProviderAction::Decode(body) => assert_eq!(body, "{\"code\":0}"),
        other => panic!("expected a decoding, got {:?}", other),
    }

    let (state, action) =
        state.step_at(ProviderEvent::Decoded(Some(remote_envelope("xyz", NOW + 7200))), &now());
    match &action {
        ProviderAction::Persist(t) => {
            assert_eq!(t.access_token, "xyz");
            assert_eq!(t.expired_at, Instant::new(NOW + 7200, 0));
        }
        other => panic!("expected the new token to be kept, got {:?}", other),
    }

    let (state, action) = state.step_at(ProviderEvent::Persisted(true), &now());
    assert!(matches!(state, TokenProvider::Finished));
    match action {
        ProviderAction::Finish(Ok(envelope)) => {
            assert_eq!(envelope.data.unwrap().access_token, "xyz");
            assert_eq!(envelope.code, 0);
            assert_eq!(envelope.message, "ok");
            assert_eq!(envelope.x_trace_id, "trace-1");
        }
        other => panic!("expected the fetched token, got {:?}", other),
    }
}

#[test]
fn token_expiring_exactly_now_is_refetched() {
    let (state, action) = after_lookup(CacheLookup::Record(token("abc", NOW)));
    assert!(matches!(state, TokenProvider::Fetching));
    expect_fetch(&action);
}

#[test]
fn every_kind_of_cache_failure_leads_to_a_fetch() {
    for lookup in [
        CacheLookup::Missing,
        CacheLookup::Unreachable,
        CacheLookup::Unreadable,
        CacheLookup::Malformed,
    ] {
        let (state, action) = after_lookup(lookup);
        assert!(matches!(state, TokenProvider::Fetching));
        expect_fetch(&action);
    }
}

#[test]
fn absent_cache_then_successful_remote_succeeds() {
    let (state, _) = after_lookup(CacheLookup::Missing);
    let (state, _) = state.step_at(answered(200, "body"), &now());
    let (state, _) =
        state.step_at(ProviderEvent::Decoded(Some(remote_envelope("fresh", NOW + 10))), &now());
    let (_, action) = state.step_at(ProviderEvent::Persisted(true), &now());
    match action {
        ProviderAction::Finish(Ok(envelope)) => {
            assert_eq!(envelope.data.unwrap().access_token, "fresh")
        }
        other => panic!("expected success, got {:?}", other),
    }
}

#[test]
fn refused_token_request_fails_with_status_and_body_and_writes_nothing() {
    let (state, _) = after_lookup(CacheLookup::Missing);
    let (state, action) = state.step_at(answered(401, "{\"error\":\"bad secret\"}"), &now());
    assert!(matches!(state, TokenProvider::Finished));
    match action {
        ProviderAction::Finish(Err(GatewayError::AuthRequestFailed { status, body })) => {
            assert_eq!(status, 401);
            assert_eq!(body, "{\"error\":\"bad secret\"}");
        }
        other => panic!("expected a refusal, got {:?}", other),
    }
}

#[test]
fn refusal_with_unreadable_body_reports_empty_body() {
    let (state, _) = after_lookup(CacheLookup::Malformed);
    let (_, action) = state
        .step_at(ProviderEvent::Replied(HttpReply::Answered { status: 500, body: None }), &now());
    match action {
        ProviderAction::Finish(Err(GatewayError::AuthRequestFailed { status, body })) => {
            assert_eq!(status, 500);
            assert_eq!(body, "");
        }
        other => panic!("expected a refusal, got {:?}", other),
    }
}

#[test]
fn status_boundaries_of_success() {
    for (status, ok) in [(199u16, false), (200, true), (204, true), (299, true), (300, false), (404, false)] {
        let (state, _) = after_lookup(CacheLookup::Missing);
        let (_, action) = state.step_at(answered(status, "b"), &now());
        assert_eq!(matches!(action, ProviderAction::Decode(_)), ok, "status {}", status);
    }
}

#[test]
fn transport_failure_is_propagated() {
    let (state, _) = after_lookup(CacheLookup::Missing);
    let (state, action) = state.step_at(
        ProviderEvent::Replied(HttpReply::Unsent { detail: "connection refused".to_string() }),
        &now(),
    );
    assert!(matches!(state, TokenProvider::Finished));
    match action {
        ProviderAction::Finish(Err(GatewayError::Transport { detail })) => {
            assert_eq!(detail, "connection refused")
        }
        other => panic!("expected a transport error, got {:?}", other),
    }
}

#[test]
fn undecodable_body_fails_with_the_raw_body() {
    let (state, _) = after_lookup(CacheLookup::Missing);
    let (state, _) = state.step_at(answered(200, "<html>oops</html>"), &now());
    let (state, action) = state.step_at(ProviderEvent::Decoded(None), &now());
    assert!(matches!(state, TokenProvider::Finished));
    match action {
        ProviderAction::Finish(Err(GatewayError::Decode { raw })) => {
            assert_eq!(raw, "<html>oops</html>")
        }
        other => panic!("expected a decoding error, got {:?}", other),
    }
}

#[test]
fn envelope_without_token_fails_with_the_raw_body() {
    let (state, _) = after_lookup(CacheLookup::Missing);
    let (state, _) = state.step_at(answered(200, "{\"code\":401,\"data\":null}"), &now());
    let empty = ApiResponse {
        code: 401,
        message: "denied".to_string(),
        data: None,
        x_trace_id: "t".to_string(),
    };
    let (_, action) = state.step_at(ProviderEvent::Decoded(Some(empty)), &now());
    match action {
        ProviderAction::Finish(Err(GatewayError::Decode { raw })) => {
            assert_eq!(raw, "{\"code\":401,\"data\":null}")
        }
        other => panic!("expected a decoding error, got {:?}", other),
    }
}

#[test]
fn failed_cache_write_does_not_fail_the_search() {
    let (state, _) = after_lookup(CacheLookup::Record(token("abc", NOW - 1)));
    let (state, _) = state.step_at(answered(201, "body"), &now());
    let (state, _) =
        state.step_at(ProviderEvent::Decoded(Some(remote_envelope("xyz", NOW + 7200))), &now());
    let (state, action) = state.step_at(ProviderEvent::Persisted(false), &now());
    assert!(matches!(state, TokenProvider::Finished));
    match action {
        ProviderAction::Finish(Ok(envelope)) => {
            let t = envelope.data.unwrap();
            assert_eq!(t.access_token, "xyz");
            assert_eq!(t.expired_at, Instant::new(NOW + 7200, 0));
        }
        other => panic!("expected the fetched token, got {:?}", other),
    }
}

#[test]
fn events_that_answer_nothing_change_nothing() {
    let (provider, _) = access_token_and_cache(credentials());
    let (state, action) = provider.step_at(ProviderEvent::Persisted(true), &now());
    assert!(matches!(action, ProviderAction::Unexpected));
    assert!(matches!(state, TokenProvider::LookingUp { .. }));
    // the machine can still go on
    let (state, action) = state.step_at(ProviderEvent::Looked(CacheLookup::Missing), &now());
    expect_fetch(&action);
    let (state, action) = state.step_at(ProviderEvent::Decoded(None), &now());
    assert!(matches!(action, ProviderAction::Unexpected));
    assert!(matches!(state, TokenProvider::Fetching));
    // a finished machine accepts nothing
    let (state, _) = state.step_at(answered(403, ""), &now());
    let (state, action) = state.step_at(answered(200, ""), &now());
    assert!(matches!(action, ProviderAction::Unexpected));
    assert!(matches!(state, TokenProvider::Finished));
}

#[test]
fn step_reads_the_clock_for_cached_tokens() {
    // valid until the year 3000
    let (provider, _) = access_token_and_cache(credentials());
    let (_, action) =
        provider.step(ProviderEvent::Looked(CacheLookup::Record(token("far", 32_503_680_000))));
    match action {
        ProviderAction::Finish(Ok(envelope)) => {
            assert_eq!(envelope.data.unwrap().access_token, "far")
        }
        other => panic!("expected the cached token, got {:?}", other),
    }
    // expired in 2001
    let (provider, _) = access_token_and_cache(credentials());
    let (state, action) =
        provider.step(ProviderEvent::Looked(CacheLookup::Record(token("old", 1_000_000_000))));
    assert!(matches!(state, TokenProvider::Fetching));
    expect_fetch(&action);
    // the other steps do not depend on the time
    let (state, action) = state.step(answered(200, "b"));
    assert!(matches!(action, ProviderAction::Decode(_)));
    let (state, action) = state.step(ProviderEvent::Decoded(Some(remote_envelope("n", 5))));
    assert!(matches!(action, ProviderAction::Persist(_)));
    let (_, action) = state.step(ProviderEvent::Persisted(false));
    assert!(matches!(action, ProviderAction::Finish(Ok(_))));
}

#[test]
fn kept_token_is_found_by_the_next_search() {
    // first search: nothing cached, the remote side answers "xyz"
    let (state, _) = after_lookup(CacheLookup::Missing);
    let (state, _) = state.step_at(answered(200, "b"), &now());
    let (_, action) =
        state.step_at(ProviderEvent::Decoded(Some(remote_envelope("xyz", NOW + 7200))), &now());
    let kept = match action {
        ProviderAction::Persist(t) => t,
        other => panic!("expected the new token to be kept, got {:?}", other),
    };
    // second search, an hour later: the cache holds what was kept
    let later = Instant::new(NOW + 3600, 0);
    let (provider, _) = access_token_and_cache(credentials());
    let (state, action) = provider.step_at(ProviderEvent::Looked(CacheLookup::Record(kept)), &later);
    assert!(matches!(state, TokenProvider::Finished));
    match action {
        ProviderAction::Finish(Ok(envelope)) => {
            let t = envelope.data.unwrap();
            assert_eq!(t.access_token, "xyz");
            assert_eq!(t.expired_at, Instant::new(NOW + 7200, 0));
        }
        other => panic!("expected the kept token, got {:?}", other),
    }
}

#[test]
fn searches_that_see_the_same_stale_cache_each_fetch_and_each_write() {
    // Nothing is shared between searches: each one that finds the cache stale asks the
    // remote side itself and hands out its own token to be written.
    let mut kept = Vec::new();
    for name in ["first", "second", "third"] {
        let (state, action) = after_lookup(CacheLookup::Record(token("abc", NOW - 1)));
        expect_fetch(&action);
        let (state, _) = state.step_at(answered(200, "b"), &now());
        let (_, action) =
            state.step_at(ProviderEvent::Decoded(Some(remote_envelope(name, NOW + 60))), &now());
        match action {
            ProviderAction::Persist(t) => kept.push(t.access_token),
            other => panic!("expected a write, got {:?}", other),
        }
    }
    assert_eq!(kept, vec!["first", "second", "third"]);
}
