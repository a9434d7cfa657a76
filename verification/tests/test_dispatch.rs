use netdisk_core::dispatch::{
    is_success, judge_decoding, judge_reply, DispatchAction, DispatchEvent, Dispatcher, Endpoint,
    GatewayError, HttpReply,
};
use netdisk_core::envelope::{ApiResponse, RequestConfig};
use netdisk_core::file_api::user_info;
use netdisk_core::file_info::{CreateFile, DownloadUrlData, UploadFileData};
use netdisk_core::token::{AccessToken, Instant};

fn token() -> AccessToken {
    AccessToken::new("test_token".to_string(), Instant::new(2_000_000_000, 0))
}

fn begin() -> Dispatcher {
    let (state, action) = Dispatcher::call::<DownloadUrlData>(user_info(&token()));
    match action {
        DispatchAction::Send(request) => {
            assert_eq!(request.url, "https://open-api.123pan.com/api/v1/user/info")
        }
        other => panic!("expected a request, got {:?}", other),
    }
    assert!(matches!(state, Dispatcher::AwaitingReply));
    state
}

fn answered(status: u16, body: &str) -> DispatchEvent<DownloadUrlData> {
    DispatchEvent::Replied(HttpReply::Answered { status, body: Some(body.to_string()) })
}

#[test]
fn forbidden_call_fails_with_status_and_body() {
    let (state, action) = begin().step(answered(403, "{\"error\":\"forbidden\"}"));
    assert!(matches!(state, Dispatcher::Finished));
    match action {
        DispatchAction::Finish(Err(GatewayError::ApiRequestFailed { status, body })) => {
            assert_eq!(status, 403);
            assert_eq!(body, "{\"error\":\"forbidden\"}");
        }
        other => panic!("expected a refusal, got {:?}", other),
    }
}

#[test]
fn successful_call_returns_the_envelope_unchanged() {
    let (state, action) = begin().step(answered(200, "{...}"));
    match &action {
        DispatchAction::Decode(body) => assert_eq!(body, "{...}"),
        other => panic!("expected a decoding, got {:?}", other),
    }
    // an envelope whose code signals an application-level error is handed on as it is
    let envelope = ApiResponse {
        code: 5066,
        message: "文件不存在".to_string(),
        data: None::<DownloadUrlData>,
        x_trace_id: "trace-9".to_string(),
    };
    let (state, action) = state.step(DispatchEvent::Decoded(Some(envelope)));
    assert!(matches!(state, Dispatcher::Finished));
    match action {
        DispatchAction::Finish(Ok(envelope)) => {
            assert_eq!(envelope.code, 5066);
            assert_eq!(envelope.message, "文件不存在");
            assert!(envelope.data.is_none());
            assert_eq!(envelope.x_trace_id, "trace-9");
        }
        other => panic!("expected the envelope, got {:?}", other),
    }
}

#[test]
fn successful_call_keeps_the_payload() {
    let (state, _) = begin().step(answered(200, "{}"));
    let envelope = ApiResponse::new(
        0,
        "ok".to_string(),
        DownloadUrlData { download_url: "https://cdn.example/file".to_string() },
        "t".to_string(),
    );
    let (_, action) = state.step(DispatchEvent::Decoded(Some(envelope)));
    match action {
        DispatchAction::Finish(Ok(envelope)) => {
            assert_eq!(envelope.data.unwrap().download_url, "https://cdn.example/file")
        }
        other => panic!("expected the envelope, got {:?}", other),
    }
}

#[test]
fn undecodable_success_is_a_decoding_error_not_a_refusal() {
    let (state, _) = begin().step(answered(200, "not json"));
    let (_, action) = state.step(DispatchEvent::<DownloadUrlData>::Decoded(None));
    match action {
        DispatchAction::Finish(Err(GatewayError::Decode { raw })) => assert_eq!(raw, "not json"),
        other => panic!("expected a decoding error, got {:?}", other),
    }
}

#[test]
fn call_that_cannot_be_sent_is_a_transport_error() {
    let (state, action) =
        begin().step(DispatchEvent::<DownloadUrlData>::Replied(HttpReply::Unsent {
            detail: "timeout".to_string(),
        }));
    assert!(matches!(state, Dispatcher::Finished));
    match action {
        DispatchAction::Finish(Err(GatewayError::Transport { detail })) => {
            assert_eq!(detail, "timeout")
        }
        other => panic!("expected a transport error, got {:?}", other),
    }
}

#[test]
fn call_ignores_events_out_of_turn() {
    let (state, action) = begin().step(DispatchEvent::<DownloadUrlData>::Decoded(None));
    assert!(matches!(action, DispatchAction::Unexpected));
    assert!(matches!(state, Dispatcher::AwaitingReply));
    let (state, _) = state.step(answered(200, "b"));
    let (state, action) = state.step(answered(200, "b"));
    assert!(matches!(action, DispatchAction::Unexpected));
    match state {
        Dispatcher::AwaitingDecoding { body } => assert_eq!(body, "b"),
        other => panic!("unexpected state {:?}", other),
    }
}

#[test]
fn success_is_200_up_to_299() {
    assert!(!is_success(100));
    assert!(!is_success(199));
    assert!(is_success(200));
    assert!(is_success(201));
    assert!(is_success(299));
    assert!(!is_success(300));
    assert!(!is_success(403));
    assert!(!is_success(500));
    assert!(!is_success(0));
    assert!(!is_success(u16::MAX));
}

#[test]
fn refusals_are_named_after_the_endpoint() {
    let reply = || HttpReply::Answered { status: 502, body: Some("bad gateway".to_string()) };
    match judge_reply(Endpoint::Token, reply()) {
        Err(GatewayError::AuthRequestFailed { status, body }) => {
            assert_eq!((status, body.as_str()), (502, "bad gateway"))
        }
        other => panic!("unexpected {:?}", other),
    }
    match judge_reply(Endpoint::Resource, reply()) {
        Err(GatewayError::ApiRequestFailed { status, body }) => {
            assert_eq!((status, body.as_str()), (502, "bad gateway"))
        }
        other => panic!("unexpected {:?}", other),
    }
    assert_eq!(
        judge_reply(Endpoint::Resource, HttpReply::Answered { status: 200, body: None }).unwrap(),
        ""
    );
}

#[test]
fn decoding_verdicts() {
    let r = judge_decoding::<u8>("raw".to_string(), None);
    assert!(matches!(r, Err(GatewayError::Decode { raw }) if raw == "raw"));
    let r = judge_decoding("raw".to_string(), Some(ApiResponse::new(1, "m".to_string(), 5u8, "x".to_string())));
    let e = r.unwrap();
    assert_eq!((e.code, e.message.as_str(), e.data, e.x_trace_id.as_str()), (1, "m", Some(5), "x"));
}

#[test]
fn constructors_keep_their_arguments() {
    let e = ApiResponse::new(200, "响应成功".to_string(), 7u32, "xtrace".to_string());
    assert_eq!(e.code, 200);
    assert_eq!(e.message, "响应成功");
    assert_eq!(e.data, Some(7));
    assert_eq!(e.x_trace_id, "xtrace");

    let c = RequestConfig::new(true, "payload".to_string());
    assert!(c.cache);
    assert_eq!(c.data, "payload");

    let u = UploadFileData::new(Some(9), true, "pre".to_string(), 1024, vec!["s1".to_string()]);
    assert_eq!(u.file_id, Some(9));
    assert!(u.reuse);
    assert_eq!(u.preupload_id, "pre");
    assert_eq!(u.slice_size, 1024);
    assert_eq!(u.servers, vec!["s1".to_string()]);

    let f = CreateFile::new(-3, false, "p".to_string(), 16, vec![]);
    assert_eq!(f.file_id, -3);
    assert!(!f.reuse);
    assert_eq!(f.preupload_id, "p");
    assert_eq!(f.slice_size, 16);
    assert!(f.servers.is_empty());
}
