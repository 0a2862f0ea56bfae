//! The chat-completion response shape of the Zhipu provider, and the
//! extraction of its answer text.
//!
//! A response carries a list of choices; the answer is the first choice
//! whose message yields text. Message content is either one plain text
//! or a list of segments whose texts are joined.

use vstd::prelude::*;
use vstd::string::StringExecFns;

verus! {

/// Token accounting of one completion.
#[derive(Debug, Clone)]
pub struct ZhipuUsage {
    pub prompt_tokens: u64,
    pub completion_tokens: u64,
    pub total_tokens: u64,
}

/// One fragment of segmented message content.
#[derive(Debug, Clone)]
pub struct ZhipuMessageSegment {
    pub kind: Option<String>,
    pub text: Option<String>,
}

/// Message content: one plain text, or a list of segments.
#[derive(Debug, Clone)]
pub enum ZhipuMessageContent {
    Text(String),
    Segments(Vec<ZhipuMessageSegment>),
}

/// The assistant message of one choice.
#[derive(Debug, Clone)]
pub struct ZhipuMessage {
    pub content: Option<ZhipuMessageContent>,
}

/// One completion choice.
#[derive(Debug, Clone)]
pub struct ZhipuChoice {
    pub message: Option<ZhipuMessage>,
}

/// One chat-completion response.
#[derive(Debug, Clone)]
pub struct ZhipuChatResponse {
    pub choices: Vec<ZhipuChoice>,
    pub usage: Option<ZhipuUsage>,
}

/// The joined texts of a segment list, in order; segments without text
/// contribute nothing.
pub open spec fn spec_segments_text(segs: Seq<ZhipuMessageSegment>) -> Seq<char>
    decreases segs.len(),
{
    if segs.len() == 0 {
        Seq::empty()
    } else {
        spec_segments_text(segs.drop_last()) + (match segs.last().text {
            Some(t) => t@,
            None => Seq::empty(),
        })
    }
}

/// The text one content value yields: a plain text yields itself; a
/// segment list yields its joined texts, but an empty list yields none.
pub open spec fn spec_content_text(c: ZhipuMessageContent) -> Option<Seq<char>> {
    match c {
        ZhipuMessageContent::Text(t) => Some(t@),
        ZhipuMessageContent::Segments(segs) => if segs@.len() == 0 {
            None
        } else {
            Some(spec_segments_text(segs@))
        },
    }
}

/// The text one message yields.
pub open spec fn spec_message_text(m: ZhipuMessage) -> Option<Seq<char>> {
    match m.content {
        Some(c) => spec_content_text(c),
        None => None,
    }
}

/// The text one choice yields.
pub open spec fn spec_choice_text(c: ZhipuChoice) -> Option<Seq<char>> {
    match c.message {
        Some(m) => spec_message_text(m),
        None => None,
    }
}

/// The text of the first choice that yields any, scanning in order.
pub open spec fn spec_first_choice_text(choices: Seq<ZhipuChoice>) -> Option<Seq<char>>
    decreases choices.len(),
{
    if choices.len() == 0 {
        None
    } else {
        match spec_choice_text(choices[0]) {
            Some(t) => Some(t),
            None => spec_first_choice_text(choices.drop_first()),
        }
    }
}

impl ZhipuMessageContent {
    /// The text this content yields, if any.
    pub fn extract_text(&self) -> (r: Option<String>)
        ensures
            r is Some <==> spec_content_text(*self) is Some,
            r matches Some(t) ==> spec_content_text(*self) == Some(t@),
    {
        match self {
            ZhipuMessageContent::Text(t) => Some(t.clone()),
            ZhipuMessageContent::Segments(segs) => {
                if segs.len() == 0 {
                    return None;
                }
                let mut out = String::new();
                let mut i: usize = 0;
                while i < segs.len()
                    invariant
                        i <= segs@.len(),
                        out@ =~= spec_segments_text(segs@.take(i as int)),
                    decreases segs@.len() - i,
                {
                    match &segs[i].text {
                        Some(t) => {
                            out.append(t.as_str());
                        },
                        None => {
                        },
                    }
                    i = i + 1;
                    proof {
                        assert(segs@.take(i as int).drop_last() =~= segs@.take(i as int - 1));
                        assert(segs@.take(i as int).last() == segs@[i - 1]);
                    }
                }
                proof {
                    assert(segs@.take(segs@.len() as int) =~= segs@);
                }
                Some(out)
            },
        }
    }
}

impl ZhipuMessage {
    /// The text this message yields, if any.
    pub fn extract_text(&self) -> (r: Option<String>)
        ensures
            r is Some <==> spec_message_text(*self) is Some,
            r matches Some(t) ==> spec_message_text(*self) == Some(t@),
    {
        match &self.content {
            Some(c) => c.extract_text(),
            None => None,
        }
    }
}

impl ZhipuChatResponse {
    /// The answer text: the first choice that yields any.
    pub fn extract_text(&self) -> (r: Option<String>)
        ensures
            r is Some <==> spec_first_choice_text(self.choices@) is Some,
            r matches Some(t) ==> spec_first_choice_text(self.choices@) == Some(t@),
    {
        let n = self.choices.len();
        let mut i: usize = 0;
        proof {
            assert(self.choices@.skip(0) =~= self.choices@);
        }
        while i < n
            invariant
                n == self.choices@.len(),
                i <= n,
                spec_first_choice_text(self.choices@) == spec_first_choice_text(
                    self.choices@.skip(i as int),
                ),
                forall|k: int|
                    0 <= k < i ==> spec_choice_text(#[trigger] self.choices@[k]) is None,
            decreases n - i,
        {
            let choice = &self.choices[i];
            let got = match &choice.message {
                Some(m) => m.extract_text(),
                None => None,
            };
            proof {
                assert(self.choices@.skip(i as int)[0] == self.choices@[i as int]);
                assert(self.choices@.skip(i as int).drop_first() =~= self.choices@.skip(
                    i as int + 1,
                ));
            }
            match got {
                Some(t) => {
                    return Some(t);
                },
                None => {
                },
            }
            i = i + 1;
        }
        proof {
            assert(self.choices@.skip(n as int) =~= Seq::<ZhipuChoice>::empty());
        }
        None
    }
}

} // verus!
