//! User-intent names and the keyword fallback used when no language
//! model routes the request.
//!
//! Matching folds case for ASCII letters only; the keywords themselves
//! are ASCII or Chinese, so the folding is exact for them.

use vstd::prelude::*;

use crate::text::{ascii_lower, contains_sub, spec_ascii_lower, spec_contains_sub, spec_trimmed,
    str_eq, trim_ascii};

verus! {

/// What a user request asks the agent to do.
#[derive(Debug, Clone, Copy, PartialEq, Eq, Structural)]
pub enum Intent {
    Conversation,
    ImageGeneration,
    MusicGeneration,
    VideoGeneration,
    Help,
    Unknown,
}

/// The intent `as_prefix` answers.
pub open spec fn spec_intent_prefix(i: Intent) -> Seq<char> {
    match i {
        Intent::Conversation => "chat"@,
        Intent::ImageGeneration => "image"@,
        Intent::MusicGeneration => "music"@,
        Intent::VideoGeneration => "video"@,
        Intent::Help => "help"@,
        Intent::Unknown => "unknown"@,
    }
}

/// The intent a label denotes, after trimming and ASCII case folding.
pub open spec fn spec_intent_from_str(value: Seq<char>) -> Intent {
    let v = spec_ascii_lower(spec_trimmed(value));
    if v == "conversation"@ || v == "chat"@ || v == "dialogue"@ || v == "text"@ {
        Intent::Conversation
    } else if v == "image_generation"@ || v == "image"@ || v == "drawing"@ || v == "paint"@ || v
        == "art"@ {
        Intent::ImageGeneration
    } else if v == "music_generation"@ || v == "music"@ || v == "song"@ || v == "audio"@ {
        Intent::MusicGeneration
    } else if v == "video_generation"@ || v == "video"@ || v == "animation"@ || v == "film"@ {
        Intent::VideoGeneration
    } else if v == "help"@ || v == "support"@ {
        Intent::Help
    } else {
        Intent::Unknown
    }
}

impl Intent {
    /// The short label used in artifact file names and event payloads.
    pub fn as_prefix(&self) -> (r: &'static str)
        ensures
            r@ == spec_intent_prefix(*self),
    {
        match self {
            Intent::Conversation => "chat",
            Intent::ImageGeneration => "image",
            Intent::MusicGeneration => "music",
            Intent::VideoGeneration => "video",
            Intent::Help => "help",
            Intent::Unknown => "unknown",
        }
    }

    /// Reads an intent label, ignoring surrounding whitespace and ASCII
    /// case; unrecognized labels are `Unknown`.
    pub fn from_str(value: &str) -> (r: Intent)
        ensures
            r == spec_intent_from_str(value@),
    {
        let folded = ascii_lower(trim_ascii(value));
        let v = folded.as_str();
        if str_eq(v, "conversation") || str_eq(v, "chat") || str_eq(v, "dialogue") || str_eq(
            v,
            "text",
        ) {
            Intent::Conversation
        } else if str_eq(v, "image_generation") || str_eq(v, "image") || str_eq(v, "drawing")
            || str_eq(v, "paint") || str_eq(v, "art") {
            Intent::ImageGeneration
        } else if str_eq(v, "music_generation") || str_eq(v, "music") || str_eq(v, "song")
            || str_eq(v, "audio") {
            Intent::MusicGeneration
        } else if str_eq(v, "video_generation") || str_eq(v, "video") || str_eq(v, "animation")
            || str_eq(v, "film") {
            Intent::VideoGeneration
        } else if str_eq(v, "help") || str_eq(v, "support") {
            Intent::Help
        } else {
            Intent::Unknown
        }
    }
}

/// Whether the folded input mentions any keyword of casual conversation.
pub open spec fn spec_mentions_chat(n: Seq<char>) -> bool {
    spec_contains_sub(n, "聊"@) || spec_contains_sub(n, "chat"@) || spec_contains_sub(n, "问"@)
        || spec_contains_sub(n, "explain"@) || spec_contains_sub(n, "说"@) || spec_contains_sub(
        n,
        "help"@,
    )
}

/// Whether the folded input mentions any drawing keyword.
pub open spec fn spec_mentions_image(n: Seq<char>) -> bool {
    spec_contains_sub(n, "画"@) || spec_contains_sub(n, "image"@) || spec_contains_sub(n, "绘"@)
        || spec_contains_sub(n, "图"@) || spec_contains_sub(n, "picture"@) || spec_contains_sub(
        n,
        "logo"@,
    ) || spec_contains_sub(n, "design"@)
}

/// Whether the folded input mentions any music keyword.
pub open spec fn spec_mentions_music(n: Seq<char>) -> bool {
    spec_contains_sub(n, "music"@) || spec_contains_sub(n, "旋律"@) || spec_contains_sub(
        n,
        "歌曲"@,
    ) || spec_contains_sub(n, "歌"@) || spec_contains_sub(n, "伴奏"@) || spec_contains_sub(
        n,
        "和弦"@,
    ) || spec_contains_sub(n, "曲"@)
}

/// Whether the folded input mentions any video keyword.
pub open spec fn spec_mentions_video(n: Seq<char>) -> bool {
    spec_contains_sub(n, "视频"@) || spec_contains_sub(n, "video"@) || spec_contains_sub(
        n,
        "动画"@,
    ) || spec_contains_sub(n, "片段"@) || spec_contains_sub(n, "mv"@) || spec_contains_sub(
        n,
        "剪辑"@,
    )
}

/// The keyword fallback: the first keyword family that matches decides,
/// in the order chat, image, music, video; with no match at all the
/// request is treated as conversation.
pub open spec fn spec_fallback_intent(input: Seq<char>) -> Intent {
    let n = spec_ascii_lower(input);
    if spec_mentions_chat(n) {
        Intent::Conversation
    } else if spec_mentions_image(n) {
        Intent::ImageGeneration
    } else if spec_mentions_music(n) {
        Intent::MusicGeneration
    } else if spec_mentions_video(n) {
        Intent::VideoGeneration
    } else {
        Intent::Conversation
    }
}

/// Chooses an intent by keyword when no model-based routing is available.
pub fn fallback_intent(input: &str) -> (r: Intent)
    ensures
        r == spec_fallback_intent(input@),
{
    let folded = ascii_lower(input);
    let n = folded.as_str();
    if contains_sub(n, "聊") || contains_sub(n, "chat") || contains_sub(n, "问") || contains_sub(
        n,
        "explain",
    ) || contains_sub(n, "说") || contains_sub(n, "help") {
        return Intent::Conversation;
    }
    if contains_sub(n, "画") || contains_sub(n, "image") || contains_sub(n, "绘") || contains_sub(
        n,
        "图",
    ) || contains_sub(n, "picture") || contains_sub(n, "logo") || contains_sub(n, "design") {
        return Intent::ImageGeneration;
    }
    if contains_sub(n, "music") || contains_sub(n, "旋律") || contains_sub(n, "歌曲")
        || contains_sub(n, "歌") || contains_sub(n, "伴奏") || contains_sub(n, "和弦")
        || contains_sub(n, "曲") {
        return Intent::MusicGeneration;
    }
    if contains_sub(n, "视频") || contains_sub(n, "video") || contains_sub(n, "动画")
        || contains_sub(n, "片段") || contains_sub(n, "mv") || contains_sub(n, "剪辑") {
        return Intent::VideoGeneration;
    }
    Intent::Conversation
}

} // verus!
