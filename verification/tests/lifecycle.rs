use bililive_core::config::{clamped_heartbeat_interval, BilibiliLiveConfig};
use bililive_core::errors::LiveError;
use bililive_core::manager::{chosen_socket_url, LiveManager, StartData};
use bililive_core::rest::{
    accept_start_code, end_request_body, heartbeat_request_body, keepalive_warns,
    start_request_body,
};
use bililive_core::session::{auth_frame, heartbeat_frame, normalize_ws_url, session_step};
use bililive_core::sign::{signed_headers_at, signed_headers_now};
use bililive_core::session::SessionAction as A;
use bililive_core::session::SessionEvent as E;
use bililive_core::session::SessionState as S;
use hmac::Mac;
use md5::Digest;

fn live_config(id_code: Option<&str>) -> BilibiliLiveConfig {
    BilibiliLiveConfig {
        access_key: "ak".to_string(),
        access_secret: "as".to_string(),
        app_id: 99,
        id_code: id_code.map(|s| s.to_string()),
        host: None,
        heartbeat_interval_seconds: 20,
    }
}

fn start_data() -> StartData {
    StartData {
        game_id: "game-1".to_string(),
        auth_body: "{\"token\":\"t\"}".to_string(),
        wss_links: vec!["wss://h/path".to_string(), "wss://h2/path".to_string()],
        room_id: Some(42),
        uname: Some("anchor".to_string()),
        open_id: Some("open-1".to_string()),
    }
}

#[test]
fn signature_matches_independent_computation() {
    let body = "{\"code\":\"abc\",\"app_id\":7}";
    let h = signed_headers_at("key-id", "secret", body, "nonce-1", 1700000000);

    let md5hex = hex::encode(md5::Md5::digest(body.as_bytes()));
    let canonical = format!(
        "x-bili-accesskeyid:key-id\nx-bili-content-md5:{}\nx-bili-signature-method:HMAC-SHA256\nx-bili-signature-nonce:nonce-1\nx-bili-signature-version:1.0\nx-bili-timestamp:1700000000",
        md5hex
    );
    let expected = {
        let mut mac = hmac::Hmac::<sha2::Sha256>::new_from_slice(b"secret").unwrap();
        mac.update(canonical.as_bytes());
        hex::encode(mac.finalize().into_bytes())
    };

    assert_eq!(h.access_key, "key-id");
    assert_eq!(h.content_md5, md5hex);
    assert_eq!(h.nonce, "nonce-1");
    assert_eq!(h.timestamp, "1700000000");
    assert_eq!(h.signature, expected);
}

#[test]
fn signature_is_deterministic() {
    let a = signed_headers_at("k", "s", "body", "n", -5);
    let b = signed_headers_at("k", "s", "body", "n", -5);
    assert_eq!(a.signature, b.signature);
    assert_eq!(a.timestamp, "-5");
}

#[test]
fn request_bodies_are_canonical_json() {
    assert_eq!(
        start_request_body("one\"two", 42),
        "{\"code\":\"one\\\"two\",\"app_id\":42}"
    );
    assert_eq!(heartbeat_request_body("g1"), "{\"game_id\":\"g1\"}");
    assert_eq!(end_request_body(7, "g1"), "{\"app_id\":7,\"game_id\":\"g1\"}");
}

#[test]
fn json_escaping_matches_the_reference_serializer() {
    let tricky = "a\"b\\c\nd\te\rf\u{8}g\u{c}h\u{1}i";
    let body = start_request_body(tricky, 0);
    let parsed: serde_json::Value = serde_json::from_str(&body).unwrap();
    assert_eq!(parsed["code"], serde_json::Value::String(tricky.to_string()));
    let reference = serde_json::to_string(&serde_json::Value::String(tricky.to_string())).unwrap();
    assert!(body.starts_with("{\"code\":"));
    assert!(body.contains(&reference[1..reference.len() - 1]));
    assert!(body.contains("\\u0001"));
}

#[test]
fn start_response_code_decides_fate() {
    assert!(accept_start_code(0, "ok".to_string()).is_ok());
    match accept_start_code(4004, "no room".to_string()) {
        Err(LiveError::Api { code, message }) => {
            assert_eq!(code, 4004);
            assert_eq!(message, "no room");
        }
        other => panic!("unexpected: {:?}", other),
    }
    assert!(!keepalive_warns(0));
    assert!(keepalive_warns(1));
}

#[test]
fn second_start_is_refused_and_first_session_untouched() {
    let mut m = LiveManager::new(live_config(Some("CODE1")));
    assert_eq!(m.begin_start().unwrap(), "CODE1");
    let info = m.complete_start(&start_data(), 1700000000).unwrap();
    assert_eq!(info.game_id, "game-1");
    assert_eq!(info.room_id, 42);
    assert_eq!(info.anchor_name, "anchor");
    assert_eq!(info.anchor_open_id.as_deref(), Some("open-1"));
    assert_eq!(info.started_at, 1700000000);

    // second start without an intervening stop
    match m.begin_start() {
        Err(LiveError::AlreadyActive) => {}
        other => panic!("unexpected: {:?}", other),
    }
    match m.complete_start(&start_data(), 1800000000) {
        Err(LiveError::AlreadyActive) => {}
        other => panic!("unexpected: {:?}", other),
    }
    let status = m.status().unwrap();
    assert_eq!(status.game_id, "game-1");
    assert_eq!(status.started_at, 1700000000);
}

#[test]
fn stop_without_session_returns_no_session() {
    let mut m = LiveManager::new(live_config(Some("CODE1")));
    assert!(m.stop().is_none());
    assert!(m.stop().is_none());
    assert!(m.status().is_none());
}

#[test]
fn stop_returns_the_session_and_start_works_again() {
    let mut m = LiveManager::new(live_config(Some("CODE1")));
    m.complete_start(&start_data(), 5).unwrap();
    let stopped = m.stop().unwrap();
    assert_eq!(stopped.game_id, "game-1");
    assert!(m.status().is_none());
    assert!(m.complete_start(&start_data(), 6).is_ok());
}

#[test]
fn start_requires_identity_code() {
    let m = LiveManager::new(live_config(None));
    match m.begin_start() {
        Err(LiveError::Config(_)) => {}
        other => panic!("unexpected: {:?}", other),
    }
}

#[test]
fn start_requires_a_socket_url() {
    let mut m = LiveManager::new(live_config(Some("C")));
    let mut data = start_data();
    data.wss_links.clear();
    match m.complete_start(&data, 1) {
        Err(LiveError::NoSocketUrl) => {}
        other => panic!("unexpected: {:?}", other),
    }
    assert!(m.status().is_none());
}

#[test]
fn missing_anchor_fields_fall_back() {
    let mut m = LiveManager::new(live_config(Some("C")));
    let mut data = start_data();
    data.room_id = None;
    data.uname = None;
    data.open_id = None;
    let info = m.complete_start(&data, 1).unwrap();
    assert_eq!(info.room_id, 0);
    assert_eq!(info.anchor_name, "Unknown");
    assert!(info.anchor_open_id.is_none());
}

#[test]
fn the_first_socket_url_is_chosen() {
    assert_eq!(chosen_socket_url(&start_data()).unwrap(), "wss://h/path");
    let mut data = start_data();
    data.wss_links.clear();
    match chosen_socket_url(&data) {
        Err(LiveError::NoSocketUrl) => {}
        other => panic!("unexpected: {:?}", other),
    }
}

#[test]
fn socket_url_gets_the_subscription_suffix() {
    assert_eq!(normalize_ws_url("wss://host/path"), "wss://host/path/sub");
    assert_eq!(normalize_ws_url("wss://host/path/"), "wss://host/path/sub");
    assert_eq!(normalize_ws_url("wss://host/path/sub"), "wss://host/path/sub");
    assert_eq!(normalize_ws_url(""), "/sub");
    assert_eq!(normalize_ws_url("sub"), "sub/sub");
}

#[test]
fn session_steps_follow_the_transition_table() {
    assert_eq!(session_step(S::Starting, E::StartCompleted), (S::Connected, A::SendAuthFrame));
    assert_eq!(session_step(S::Starting, E::ConnectFailed), (S::Failed, A::DoNothing));
    assert_eq!(session_step(S::Connected, E::AuthSent), (S::Listening, A::DoNothing));
    assert_eq!(session_step(S::Listening, E::WsHeartbeatDue), (S::Listening, A::SendWsHeartbeat));
    assert_eq!(
        session_step(S::Listening, E::RestHeartbeatDue),
        (S::Listening, A::CallRestHeartbeat)
    );
    assert_eq!(session_step(S::Listening, E::BinaryFrame), (S::Listening, A::DecodeAndDispatch));
    assert_eq!(session_step(S::Listening, E::PingReceived), (S::Listening, A::SendPong));
    // absorbed without leaving Listening
    assert_eq!(session_step(S::Listening, E::WsHeartbeatSendFailed), (S::Listening, A::DoNothing));
    assert_eq!(session_step(S::Listening, E::RestHeartbeatFailed), (S::Listening, A::DoNothing));
    assert_eq!(session_step(S::Listening, E::MalformedFrame), (S::Listening, A::DoNothing));
    assert_eq!(session_step(S::Listening, E::TextMessage), (S::Listening, A::DoNothing));
    // teardown carries the one REST end call
    assert_eq!(session_step(S::Listening, E::CloseReceived), (S::ShuttingDown, A::CallRestEnd));
    assert_eq!(session_step(S::Listening, E::ReadFailed), (S::ShuttingDown, A::CallRestEnd));
    assert_eq!(session_step(S::Listening, E::StreamEnded), (S::ShuttingDown, A::CallRestEnd));
    assert_eq!(session_step(S::Listening, E::CancelRequested), (S::ShuttingDown, A::CallRestEnd));
    assert_eq!(session_step(S::ShuttingDown, E::RestEndDone), (S::Closed, A::DoNothing));
    // transport failure fails from any live state; terminal states absorb
    assert_eq!(session_step(S::Listening, E::TransportFailed), (S::Failed, A::DoNothing));
    assert_eq!(session_step(S::Connected, E::TransportFailed), (S::Failed, A::DoNothing));
    assert_eq!(session_step(S::Closed, E::CancelRequested), (S::Closed, A::DoNothing));
    assert_eq!(session_step(S::Failed, E::WsHeartbeatDue), (S::Failed, A::DoNothing));
}

#[test]
fn control_frames_have_the_fixed_layout() {
    let hb = heartbeat_frame();
    assert_eq!(hb, vec![0, 0, 0, 16, 0, 16, 0, 1, 0, 0, 0, 2, 0, 0, 0, 1]);
    let auth = auth_frame("{\"t\":1}").unwrap();
    assert_eq!(&auth[..16], &[0, 0, 0, 23, 0, 16, 0, 1, 0, 0, 0, 7, 0, 0, 0, 1]);
    assert_eq!(&auth[16..], b"{\"t\":1}");
}

#[test]
fn heartbeat_interval_is_clamped() {
    assert_eq!(clamped_heartbeat_interval(Some(3)), 5);
    assert_eq!(clamped_heartbeat_interval(Some(5)), 5);
    assert_eq!(clamped_heartbeat_interval(Some(60)), 60);
    assert_eq!(clamped_heartbeat_interval(None), 20);
}

#[test]
fn fresh_headers_sign_their_own_nonce_and_timestamp() {
    let body = "{\"game_id\":\"g\"}";
    let h = signed_headers_now("key-id", "secret", body);
    assert_eq!(h.access_key, "key-id");
    assert_eq!(h.nonce.len(), 36);
    let ts: i64 = h.timestamp.parse().unwrap();
    let again = signed_headers_at("key-id", "secret", body, &h.nonce, ts);
    assert_eq!(again.signature, h.signature);
    assert_eq!(again.content_md5, h.content_md5);
}
