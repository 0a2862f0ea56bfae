//! Small text helpers of the console event renderer. The renderer itself
//! prints and therefore lives outside the crate; what it prints for
//! badges, medals and detail lines is decided here.

use vstd::prelude::*;
use vstd::string::StringExecFns;

use crate::text::{dec_i64, spec_dec_chars, spec_trimmed, trim_ascii};

verus! {

/// The yes/no word of a boolean detail.
pub open spec fn spec_yes_no(value: bool) -> Seq<char> {
    if value {
        "是"@
    } else {
        "否"@
    }
}

/// Renders a boolean detail.
pub fn yes_no(value: bool) -> (r: &'static str)
    ensures
        r@ == spec_yes_no(value),
{
    if value {
        "是"
    } else {
        "否"
    }
}

/// The label of a guard level: the three named ranks, or the level
/// number for anything else.
pub open spec fn spec_guard_level_label(level: int) -> Seq<char> {
    if level == 1 {
        "总督"@
    } else if level == 2 {
        "提督"@
    } else if level == 3 {
        "舰长"@
    } else {
        "等级 "@ + spec_dec_chars(level)
    }
}

/// Renders a guard level.
pub fn guard_level_label(level: i64) -> (r: String)
    ensures
        r@ == spec_guard_level_label(level as int),
{
    if level == 1 {
        "总督".to_owned()
    } else if level == 2 {
        "提督".to_owned()
    } else if level == 3 {
        "舰长".to_owned()
    } else {
        let mut out = String::new();
        out.append("等级 ");
        let n = dec_i64(level);
        out.append(n.as_str());
        out
    }
}

/// The medal line of an event, when the medal name is not blank: the
/// trimmed name, with the level appended when it is positive.
pub open spec fn spec_medal_line(name: Seq<char>, level: Option<i64>) -> Option<Seq<char>> {
    let trimmed = spec_trimmed(name);
    if trimmed.len() == 0 {
        None
    } else {
        match level {
            Some(l) => if l > 0 {
                Some("粉丝勋章: "@ + trimmed + " Lv"@ + spec_dec_chars(l as int))
            } else {
                Some("粉丝勋章: "@ + trimmed)
            },
            None => Some("粉丝勋章: "@ + trimmed),
        }
    }
}

/// Renders the medal detail of an event, if it carries a usable medal.
pub fn format_medal(name: Option<String>, level: Option<i64>) -> (r: Option<String>)
    ensures
        (match name {
            None => r is None,
            Some(n) => (match (r, spec_medal_line(n@, level)) {
                (Some(got), Some(want)) => got@ == want,
                (None, None) => true,
                _ => false,
            }),
        }),
{
    let name = match name {
        Some(n) => n,
        None => {
            return None;
        },
    };
    let trimmed = trim_ascii(name.as_str());
    if trimmed.unicode_len() == 0 {
        return None;
    }
    let mut out = String::new();
    out.append("粉丝勋章: ");
    out.append(trimmed);
    match level {
        Some(l) if l > 0 => {
            out.append(" Lv");
            let n = dec_i64(l);
            out.append(n.as_str());
        },
        _ => {
        },
    }
    Some(out)
}

/// Appends one `label: value` detail line, unless the value is blank.
pub fn push_detail(details: &mut Vec<String>, label: &str, value: Option<String>)
    ensures
        (match value {
            None => final (details)@ == old(details)@,
            Some(text) => if spec_trimmed(text@).len() == 0 {
                final (details)@ == old(details)@
            } else {
                final (details)@.len() == old(details)@.len() + 1 && final (details)@.drop_last()
                    == old(details)@ && final (details)@.last()@ == label@ + ": "@ + text@
            },
        }),
{
    let text = match value {
        Some(t) => t,
        None => {
            return ;
        },
    };
    if trim_ascii(text.as_str()).unicode_len() == 0 {
        return ;
    }
    let mut line = String::new();
    line.append(label);
    line.append(": ");
    line.append(text.as_str());
    details.push(line);
    proof {
        assert(details@.drop_last() =~= old(details)@);
    }
}

} // verus!
