use hmac::Mac;

use bililive_core::auth::{AuthError, AuthService};
use bililive_core::config::{
    AuthConfig, CapabilityProviders, CapabilityRoute, HyperbolicConfig, VideoConfig,
};
use bililive_core::intent::{fallback_intent, Intent};
use bililive_core::models::{AuthData, IntentType};
use bililive_core::outcome::{ArtifactWriter, ExecutionOutcome};
use bililive_core::render::{format_medal, guard_level_label, push_detail, yes_no};
use bililive_core::sse::{AuthParams, ClientMessage, SignatureAuth};
use bililive_core::text::{contains_sub, dec_i64, dec_u64, hex_chars, parse_hex, trim_ascii};
use bililive_core::zhipu::{
    ZhipuChatResponse, ZhipuChoice, ZhipuMessage, ZhipuMessageContent, ZhipuMessageSegment,
};

#[test]
fn hex_rendering_and_parsing_round_trip() {
    assert_eq!(hex_chars(&[]), "");
    assert_eq!(hex_chars(&[0x00, 0xff, 0x1a]), "00ff1a");
    assert_eq!(parse_hex("00ff1a").unwrap(), vec![0x00, 0xff, 0x1a]);
    assert_eq!(parse_hex("00FF1A").unwrap(), vec![0x00, 0xff, 0x1a]);
    assert!(parse_hex("0").is_none());
    assert!(parse_hex("zz").is_none());
    assert_eq!(parse_hex("").unwrap(), Vec::<u8>::new());
}

#[test]
fn decimal_rendering_is_exact() {
    assert_eq!(dec_u64(0), "0");
    assert_eq!(dec_u64(1700000000), "1700000000");
    assert_eq!(dec_u64(u64::MAX), "18446744073709551615");
    assert_eq!(dec_i64(0), "0");
    assert_eq!(dec_i64(-123), "-123");
    assert_eq!(dec_i64(i64::MIN), "-9223372036854775808");
    assert_eq!(dec_i64(i64::MAX), "9223372036854775807");
}

#[test]
fn trimming_and_search_behave() {
    assert_eq!(trim_ascii("  a b\t\n"), "a b");
    assert_eq!(trim_ascii(""), "");
    assert_eq!(trim_ascii(" \t "), "");
    assert!(contains_sub("hello world", "lo wo"));
    assert!(!contains_sub("hello", "world"));
    assert!(contains_sub("anything", ""));
}

fn gateway_signature(secret: &str, key: &str, ts: i64, nonce: &str) -> String {
    let canonical = format!("{}:{}:{}", key, ts, nonce);
    let mut mac = hmac::Hmac::<sha2::Sha256>::new_from_slice(secret.as_bytes()).unwrap();
    mac.update(canonical.as_bytes());
    hex::encode(mac.finalize().into_bytes())
}

#[test]
fn gateway_accepts_a_fresh_correct_signature() {
    let auth = SignatureAuth::new("AK".to_string(), "SK".to_string(), 300);
    let now = 1700000000;
    let params = AuthParams {
        access_key: "AK".to_string(),
        timestamp: now - 10,
        nonce: "n1".to_string(),
        signature: gateway_signature("SK", "AK", now - 10, "n1"),
    };
    assert!(auth.verify_params_at(&params, now));
}

#[test]
fn gateway_refuses_bad_inputs() {
    let auth = SignatureAuth::new("AK".to_string(), "SK".to_string(), 300);
    let now = 1700000000;
    let good = AuthParams {
        access_key: "AK".to_string(),
        timestamp: now,
        nonce: "n1".to_string(),
        signature: gateway_signature("SK", "AK", now, "n1"),
    };
    let mut wrong_key = good.clone();
    wrong_key.access_key = "OTHER".to_string();
    assert!(!auth.verify_params_at(&wrong_key, now));

    let mut stale = good.clone();
    stale.timestamp = now - 301;
    stale.signature = gateway_signature("SK", "AK", now - 301, "n1");
    assert!(!auth.verify_params_at(&stale, now));
    assert!(auth.verify_params_at(&good, now));

    let mut garbled = good.clone();
    garbled.signature = "not hex!".to_string();
    assert!(!auth.verify_params_at(&garbled, now));

    let mut forged = good;
    forged.signature = gateway_signature("WRONG", "AK", now, "n1");
    assert!(!auth.verify_params_at(&forged, now));
}

fn auth_service() -> AuthService {
    AuthService::new(&AuthConfig {
        secret_key: "svc-secret".to_string(),
        valid_api_keys: vec!["k1".to_string(), "k2".to_string()],
        timestamp_tolerance: 60,
    })
}

fn auth_data(api_key: &str, ts: i64) -> AuthData {
    AuthData {
        auth_type: "signature".to_string(),
        user_id: "user-7".to_string(),
        api_key: api_key.to_string(),
        timestamp_unix: ts,
        timestamp_rfc3339: "2023-11-14T22:13:20+00:00".to_string(),
        nonce: "nonce-9".to_string(),
        signature: String::new(),
        user_data: Some("extra".to_string()),
    }
}

#[test]
fn signature_authentication_round_trips() {
    let svc = auth_service();
    let now = 1700000000;
    let mut data = auth_data("k1", now - 5);
    data.signature = svc.generate_client_signature(
        "user-7",
        "k1",
        "2023-11-14T22:13:20+00:00",
        "nonce-9",
        Some("extra"),
    );
    let client = svc.authenticate_signature_at(&data, now).unwrap();
    assert_eq!(client.user_id, "user-7");
    assert_eq!(client.auth_type, "signature");
    assert_eq!(client.authenticated_at, now);
}

#[test]
fn signature_canonical_text_matches_reference() {
    let svc = auth_service();
    let data = auth_data("k1", 0);
    assert_eq!(
        svc.create_signature_data(&data),
        "api_key=k1&nonce=nonce-9&timestamp=2023-11-14T22:13:20+00:00&user_data=extra&user_id=user-7"
    );
    let mut no_extra = data;
    no_extra.user_data = None;
    assert_eq!(
        svc.create_signature_data(&no_extra),
        "api_key=k1&nonce=nonce-9&timestamp=2023-11-14T22:13:20+00:00&user_id=user-7"
    );
}

#[test]
fn signature_base64_matches_reference() {
    let svc = auth_service();
    let mut mac = hmac::Hmac::<sha2::Sha256>::new_from_slice(b"svc-secret").unwrap();
    mac.update(b"payload");
    let expected = base64::Engine::encode(
        &base64::engine::general_purpose::STANDARD,
        mac.finalize().into_bytes(),
    );
    assert_eq!(svc.generate_signature("payload"), expected);
}

#[test]
fn authentication_refuses_bad_inputs() {
    let svc = auth_service();
    let now = 1700000000;

    let stale = auth_data("k1", now - 61);
    assert_eq!(svc.authenticate_signature_at(&stale, now).unwrap_err(), AuthError::StaleTimestamp);

    let unknown = auth_data("k9", now);
    assert_eq!(svc.authenticate_signature_at(&unknown, now).unwrap_err(), AuthError::InvalidApiKey);

    let mut forged = auth_data("k1", now);
    forged.signature = "AAAA".to_string();
    assert_eq!(svc.authenticate_signature_at(&forged, now).unwrap_err(), AuthError::InvalidSignature);

    let mut odd = auth_data("k1", now);
    odd.auth_type = "token".to_string();
    assert_eq!(svc.authenticate(&odd).unwrap_err(), AuthError::UnsupportedType);
}

#[test]
fn api_key_authentication_checks_the_list() {
    let svc = auth_service();
    let ok = svc.authenticate_api_key_at(&auth_data("k2", 0), 5).unwrap();
    assert_eq!(ok.auth_type, "api_key");
    assert_eq!(
        svc.authenticate_api_key_at(&auth_data("k9", 0), 5).unwrap_err(),
        AuthError::InvalidApiKey
    );
}

#[test]
fn client_messages_map_to_commands() {
    let c = ClientMessage::Command { input: "hi".to_string() }.into_command();
    match c {
        bililive_core::sse::AgentCommand::Command { input } => assert_eq!(input, "hi"),
        other => panic!("unexpected: {:?}", other),
    }
    assert!(matches!(
        ClientMessage::LiveStart.into_command(),
        bililive_core::sse::AgentCommand::LiveStart
    ));
    assert!(matches!(
        ClientMessage::LiveStop.into_command(),
        bililive_core::sse::AgentCommand::LiveStop
    ));
    assert!(matches!(
        ClientMessage::LiveStatus.into_command(),
        bililive_core::sse::AgentCommand::LiveStatus
    ));
}

#[test]
fn intent_labels_parse_with_folding() {
    assert_eq!(Intent::from_str(" CHAT "), Intent::Conversation);
    assert_eq!(Intent::from_str("image_generation"), Intent::ImageGeneration);
    assert_eq!(Intent::from_str("Drawing"), Intent::ImageGeneration);
    assert_eq!(Intent::from_str("song"), Intent::MusicGeneration);
    assert_eq!(Intent::from_str("ANIMATION"), Intent::VideoGeneration);
    assert_eq!(Intent::from_str("support"), Intent::Help);
    assert_eq!(Intent::from_str("gibberish"), Intent::Unknown);
    assert_eq!(Intent::Conversation.as_prefix(), "chat");
    assert_eq!(Intent::Unknown.as_prefix(), "unknown");
}

#[test]
fn keyword_fallback_routes_by_first_family() {
    assert_eq!(fallback_intent("随便聊聊天气"), Intent::Conversation);
    assert_eq!(fallback_intent("帮我画一只猫"), Intent::ImageGeneration);
    assert_eq!(fallback_intent("来一段旋律"), Intent::MusicGeneration);
    assert_eq!(fallback_intent("做一个视频"), Intent::VideoGeneration);
    assert_eq!(fallback_intent("PICTURE please"), Intent::ImageGeneration);
    // "help" keyword belongs to the chat family
    assert_eq!(fallback_intent("help me draw"), Intent::Conversation);
    assert_eq!(fallback_intent("nothing matches here?!"), Intent::Conversation);
}

#[test]
fn intent_type_labels_round_trip() {
    assert_eq!(IntentType::Conversation.as_str(), "对话聊天");
    assert_eq!(IntentType::from_str("唱歌请求"), IntentType::SingingRequest);
    assert_eq!(IntentType::from_str("绘画请求"), IntentType::DrawingRequest);
    assert_eq!(IntentType::from_str("???"), IntentType::OtherCommand);
    assert_eq!(
        IntentType::from_str(IntentType::OtherCommand.as_str()),
        IntentType::OtherCommand
    );
}

#[test]
fn zhipu_text_extraction_scans_choices_in_order() {
    let response = ZhipuChatResponse {
        choices: vec![
            ZhipuChoice { message: None },
            ZhipuChoice {
                message: Some(ZhipuMessage { content: Some(ZhipuMessageContent::Segments(vec![])) }),
            },
            ZhipuChoice {
                message: Some(ZhipuMessage {
                    content: Some(ZhipuMessageContent::Segments(vec![
                        ZhipuMessageSegment { kind: None, text: Some("he".to_string()) },
                        ZhipuMessageSegment { kind: Some("pad".to_string()), text: None },
                        ZhipuMessageSegment { kind: None, text: Some("llo".to_string()) },
                    ])),
                }),
            },
        ],
        usage: None,
    };
    assert_eq!(response.extract_text().unwrap(), "hello");

    let plain = ZhipuChatResponse {
        choices: vec![ZhipuChoice {
            message: Some(ZhipuMessage {
                content: Some(ZhipuMessageContent::Text("direct".to_string())),
            }),
        }],
        usage: None,
    };
    assert_eq!(plain.extract_text().unwrap(), "direct");

    let empty = ZhipuChatResponse { choices: vec![], usage: None };
    assert!(empty.extract_text().is_none());
}

#[test]
fn outcome_event_names_are_fixed() {
    let conversation = ExecutionOutcome::Conversation { response: "hi".to_string() };
    let artifact = ExecutionOutcome::Artifact {
        intent: Intent::ImageGeneration,
        path: "a/b.png".to_string(),
        description: "d".to_string(),
    };
    let help = ExecutionOutcome::Help { message: "m".to_string() };
    assert_eq!(conversation.event_name(), "agent.conversation");
    assert_eq!(artifact.event_name(), "agent.artifact");
    assert_eq!(help.event_name(), "agent.help");
}

#[test]
fn artifact_names_take_the_prefix_timestamp_and_short_id() {
    let w = ArtifactWriter::new("artifacts".to_string());
    assert_eq!(
        w.file_name(Intent::ImageGeneration, "20231114_221320", "0123456789abcdef", "png"),
        "image_20231114_221320_01234567.png"
    );
    assert_eq!(
        w.meta_file_name(Intent::MusicGeneration, "t", "abcdefgh"),
        "music_t_abcdefgh.meta.json"
    );
}

#[test]
fn capability_routes_normalize_their_provider() {
    let r = CapabilityRoute::new("  OpenAI ", Some("gpt".to_string()));
    assert_eq!(r.provider, "openai");
    assert_eq!(r.model.as_deref(), Some("gpt"));

    let hyperbolic = HyperbolicConfig {
        api_key: "k".to_string(),
        language: "EN".to_string(),
        voice: "EN-US".to_string(),
    };
    let music = CapabilityProviders::default_music(Some(&hyperbolic)).unwrap();
    assert_eq!(music.provider, "hyperbolic");
    assert_eq!(music.model.as_deref(), Some("EN"));
    assert!(CapabilityProviders::default_music(None).is_none());

    let video_cfg = VideoConfig {
        endpoint: "http://v".to_string(),
        api_key: None,
        format: "mp4".to_string(),
        max_duration_seconds: Some(10),
    };
    let video = CapabilityProviders::default_video(Some(&video_cfg)).unwrap();
    assert_eq!(video.provider, "custom");
    assert_eq!(video.model.as_deref(), Some("mp4"));
}

#[test]
fn renderer_helpers_format_details() {
    assert_eq!(yes_no(true), "是");
    assert_eq!(yes_no(false), "否");
    assert_eq!(guard_level_label(1), "总督");
    assert_eq!(guard_level_label(2), "提督");
    assert_eq!(guard_level_label(3), "舰长");
    assert_eq!(guard_level_label(7), "等级 7");
    assert_eq!(guard_level_label(-1), "等级 -1");

    assert_eq!(format_medal(None, Some(3)), None);
    assert_eq!(format_medal(Some("  ".to_string()), Some(3)), None);
    assert_eq!(
        format_medal(Some(" 粉丝团 ".to_string()), Some(3)).unwrap(),
        "粉丝勋章: 粉丝团 Lv3"
    );
    assert_eq!(
        format_medal(Some("粉丝团".to_string()), Some(0)).unwrap(),
        "粉丝勋章: 粉丝团"
    );
    assert_eq!(format_medal(Some("粉丝团".to_string()), None).unwrap(), "粉丝勋章: 粉丝团");

    let mut details: Vec<String> = Vec::new();
    push_detail(&mut details, "room_id", Some("42".to_string()));
    push_detail(&mut details, "open_id", None);
    push_detail(&mut details, "msg", Some("   ".to_string()));
    assert_eq!(details, vec!["room_id: 42".to_string()]);
}
