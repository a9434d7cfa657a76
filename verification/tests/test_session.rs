use netdisk_core::config::AuthConfig;
use netdisk_core::dispatch::{GatewayError, HttpReply};
use netdisk_core::envelope::ApiResponse;
use netdisk_core::file_info::{DownloadUrlData, FileQuery, FileSearchItem};
use netdisk_core::request::Method;
use netdisk_core::session::{plan, Call, Session, SessionAction, SessionEvent};
use netdisk_core::token::{AccessToken, Instant};
use netdisk_core::token_store::CacheLookup;

const NOW: i64 = 1_760_000_000;

type Event = SessionEvent<DownloadUrlData>;
type Action = SessionAction<DownloadUrlData>;

fn now() -> Instant {
    Instant::new(NOW, 0)
}

fn token(name: &str, secs: i64) -> AccessToken {
    AccessToken::new(name.to_string(), Instant::new(secs, 0))
}

fn begin() -> Session {
    let credentials = AuthConfig::new("id".to_string(), "secret".to_string());
    let (session, action): (Session, Action) =
        Session::begin(credentials, Call::Download(FileQuery { file_id: 18340536 }));
    assert!(matches!(action, SessionAction::ReadCache));
    session
}

fn answered(status: u16, body: &str) -> HttpReply {
    HttpReply::Answered { status, body: Some(body.to_string()) }
}

fn expect_call(action: &Action, bearer: &str) {
    match action {
        SessionAction::SendCall(request) => {
            assert_eq!(request.method, Method::Get);
            assert_eq!(request.url, "https://open-api.123pan.com/api/v1/file/download_info");
            assert_eq!(request.headers[0], ("Authorization".to_string(), bearer.to_string()));
            assert_eq!(request.query, vec![("fileID".to_string(), "18340536".to_string())]);
        }
        other => panic!("expected the call, got {:?}", other),
    }
}

#[test]
fn valid_cache_goes_straight_to_the_call() {
    let (session, action) =
        begin().step_at(Event::Looked(CacheLookup::Record(token("abc", NOW + 60))), &now());
    expect_call(&action, "Bearer abc");

    let (session, action) = session.step_at(Event::CallReplied(answered(200, "{}")), &now());
    match &action {
        SessionAction::DecodeCall(body) => assert_eq!(body, "{}"),
        other => panic!("expected a decoding, got {:?}", other),
    }
    let envelope = ApiResponse::new(
        0,
        "ok".to_string(),
        DownloadUrlData { download_url: "https://cdn/f".to_string() },
        "t".to_string(),
    );
    let (_, action) = session.step_at(Event::CallDecoded(Some(envelope)), &now());
    match action {
        SessionAction::Finish(Ok(envelope)) => {
            assert_eq!(envelope.data.unwrap().download_url, "https://cdn/f")
        }
        other => panic!("expected the answer, got {:?}", other),
    }
}

#[test]
fn stale_cache_fetches_persists_then_calls_with_the_new_token() {
    let (session, action) =
        begin().step_at(Event::Looked(CacheLookup::Record(token("abc", NOW - 3600))), &now());
    match &action {
        SessionAction::SendTokenRequest(request) => {
            assert_eq!(request.url, "https://open-api.123pan.com/api/v1/access_token")
        }
        other => panic!("expected a fetch, got {:?}", other),
    }
    let (session, action) = session.step_at(Event::TokenReplied(answered(200, "tok")), &now());
    assert!(matches!(&action, SessionAction::DecodeToken(b) if b == "tok"));
    let remote = ApiResponse::new(0, "ok".to_string(), token("xyz", NOW + 7200), "t".to_string());
    let (session, action) = session.step_at(Event::TokenDecoded(Some(remote)), &now());
    assert!(matches!(&action, SessionAction::Persist(t) if t.access_token == "xyz"));
    // the write fails; the session goes on all the same
    let (session, action) = session.step_at(Event::Persisted(false), &now());
    expect_call(&action, "Bearer xyz");
    let (_, action) = session.step_at(Event::CallReplied(answered(403, "{\"error\":\"forbidden\"}")), &now());
    match action {
        SessionAction::Finish(Err(GatewayError::ApiRequestFailed { status, body })) => {
            assert_eq!(status, 403);
            assert_eq!(body, "{\"error\":\"forbidden\"}");
        }
        other => panic!("expected a refusal, got {:?}", other),
    }
}

#[test]
fn failed_fetch_ends_the_session_without_a_call() {
    let (session, _) = begin().step_at(Event::Looked(CacheLookup::Missing), &now());
    let (session, action) = session.step_at(Event::TokenReplied(answered(401, "no")), &now());
    match action {
        SessionAction::Finish(Err(GatewayError::AuthRequestFailed { status, body })) => {
            assert_eq!((status, body.as_str()), (401, "no"))
        }
        other => panic!("expected a refusal, got {:?}", other),
    }
    // nothing more happens
    let (_, action) = session.step_at(Event::CallReplied(answered(200, "")), &now());
    assert!(matches!(action, SessionAction::Unexpected));
}

#[test]
fn session_ignores_events_out_of_turn() {
    let (session, action) = begin().step_at(Event::CallReplied(answered(200, "")), &now());
    assert!(matches!(action, SessionAction::Unexpected));
    let (session, action) = session.step_at(Event::Persisted(true), &now());
    assert!(matches!(action, SessionAction::Unexpected));
    let (session, action) =
        session.step_at(Event::Looked(CacheLookup::Record(token("abc", NOW + 1))), &now());
    expect_call(&action, "Bearer abc");
    let (session, action) = session.step_at(Event::Looked(CacheLookup::Missing), &now());
    assert!(matches!(action, SessionAction::Unexpected));
    let (_, action) = session.step_at(Event::CallDecoded(None), &now());
    assert!(matches!(action, SessionAction::Unexpected));
}

#[test]
fn session_step_reads_the_clock() {
    let (session, action) =
        begin().step(Event::Looked(CacheLookup::Record(token("far", 32_503_680_000))));
    expect_call(&action, "Bearer far");
    let (_, action) = session.step(Event::CallReplied(HttpReply::Unsent { detail: "dns".to_string() }));
    assert!(matches!(action, SessionAction::Finish(Err(GatewayError::Transport { detail })) if detail == "dns"));

    let (_, action) = begin().step(Event::Looked(CacheLookup::Record(token("old", 1_000_000_000))));
    assert!(matches!(action, SessionAction::SendTokenRequest(_)));
}

#[test]
fn plan_builds_the_request_of_each_call() {
    let t = token("k", NOW);
    assert_eq!(plan(Call::UserInfo, &t).url, "https://open-api.123pan.com/api/v1/user/info");
    let search = Call::Search(FileSearchItem {
        parent_file_id: 1,
        limit: 2,
        search_data: None,
        search_mode: None,
        last_file_id: None,
    });
    let r = plan(search, &t);
    assert_eq!(r.url, "https://open-api.123pan.com/api/v2/file/list");
    assert_eq!(
        r.query,
        vec![("parentFileId".to_string(), "1".to_string()), ("limit".to_string(), "2".to_string())]
    );
    assert_eq!(
        plan(Call::FileDetail(FileQuery { file_id: 999 }), &t).query,
        vec![("fileID".to_string(), "999".to_string())]
    );
}
