//! Plain data shared by the chat-response pipeline: intent labels,
//! authentication payloads and processing results.
//!
//! Timestamps travel as Unix seconds next to the RFC 3339 text the peer
//! sent; parsing and formatting those texts happens outside the crate.

use vstd::prelude::*;

use crate::text::str_eq;

verus! {

/// The coarse category a danmaku message is routed by.
#[derive(Debug, Clone, Copy, PartialEq, Eq, Structural)]
pub enum IntentType {
    Conversation,
    SingingRequest,
    DrawingRequest,
    OtherCommand,
}

/// The wire label of an intent category.
pub open spec fn spec_intent_type_label(t: IntentType) -> Seq<char> {
    match t {
        IntentType::Conversation => "对话聊天"@,
        IntentType::SingingRequest => "唱歌请求"@,
        IntentType::DrawingRequest => "绘画请求"@,
        IntentType::OtherCommand => "其他指令"@,
    }
}

/// The category a wire label denotes; unrecognized labels mean
/// `OtherCommand`.
pub open spec fn spec_intent_type_from(s: Seq<char>) -> IntentType {
    if s == "对话聊天"@ {
        IntentType::Conversation
    } else if s == "唱歌请求"@ {
        IntentType::SingingRequest
    } else if s == "绘画请求"@ {
        IntentType::DrawingRequest
    } else {
        IntentType::OtherCommand
    }
}

impl IntentType {
    /// The wire label of this category.
    pub fn as_str(&self) -> (r: &'static str)
        ensures
            r@ == spec_intent_type_label(*self),
    {
        match self {
            IntentType::Conversation => "对话聊天",
            IntentType::SingingRequest => "唱歌请求",
            IntentType::DrawingRequest => "绘画请求",
            IntentType::OtherCommand => "其他指令",
        }
    }

    /// Reads a wire label; anything unrecognized is `OtherCommand`.
    pub fn from_str(s: &str) -> (r: IntentType)
        ensures
            r == spec_intent_type_from(s@),
    {
        if str_eq(s, "对话聊天") {
            IntentType::Conversation
        } else if str_eq(s, "唱歌请求") {
            IntentType::SingingRequest
        } else if str_eq(s, "绘画请求") {
            IntentType::DrawingRequest
        } else {
            IntentType::OtherCommand
        }
    }
}

/// What processing one danmaku message produced.
#[derive(Debug, Clone)]
pub struct DanmakuProcessingResult {
    pub intent_type: IntentType,
    pub text_response: String,
    pub audio_data: Option<Vec<u8>>,
    pub image_url: Option<String>,
}

/// The authentication payload a client presents. `timestamp_unix` and
/// `timestamp_rfc3339` carry the same instant: the seconds since the
/// epoch, and the RFC 3339 text that entered the signature.
#[derive(Debug, Clone)]
pub struct AuthData {
    pub auth_type: String,
    pub user_id: String,
    pub api_key: String,
    pub timestamp_unix: i64,
    pub timestamp_rfc3339: String,
    pub nonce: String,
    pub signature: String,
    pub user_data: Option<String>,
}

/// A client that passed authentication. `authenticated_at` is a Unix
/// timestamp in seconds.
#[derive(Debug, Clone)]
pub struct AuthenticatedClient {
    pub id: String,
    pub user_id: String,
    pub auth_type: String,
    pub authenticated_at: i64,
}

} // verus!
