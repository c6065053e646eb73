//! Entry formatter: a pure mapping from one log entry (role, message
//! body, optional context) to the rich message payload the chat
//! platform expects.
//!
//! The colour is a fixed function of the role, with one colour each
//! for the conversational-human, conversational-assistant and
//! system-notice categories and a catch-all for anything else. The
//! title is the role's uppercase form behind a speech-balloon marker.
//! The footer exists exactly when a context annotation was supplied.
//! The timestamp is whatever clock reading the caller captured when it
//! formatted the entry; everything else is deterministic in the entry.

use vstd::prelude::*;
use vstd::string::StringExecFns;
use crate::text::str_eq;

verus! {

pub const COLOR_HUMAN: u32 = 0x3498db;

pub const COLOR_ASSISTANT: u32 = 0x2ecc71;

pub const COLOR_SYSTEM: u32 = 0x95a5a6;

pub const COLOR_DEFAULT: u32 = 0x7f8c8d;

/// The uppercase form of a string, as `str::to_uppercase` computes it.
pub uninterp spec fn upper_of(s: Seq<char>) -> Seq<char>;

/// Relies on `str::to_uppercase`: the result depends on the characters
/// of `s` alone.
#[verifier::external_body]
fn to_upper(s: &str) -> (r: String)
    ensures
        r@ == upper_of(s@),
{
    s.to_uppercase()
}

/// The colour attached to a role.
pub open spec fn color_spec(role: Seq<char>) -> u32 {
    if role == "human"@ {
        COLOR_HUMAN
    } else if role == "assistant"@ {
        COLOR_ASSISTANT
    } else if role == "system"@ {
        COLOR_SYSTEM
    } else {
        COLOR_DEFAULT
    }
}

/// The title attached to a role: a speech-balloon marker followed by
/// the role's uppercase form.
pub open spec fn title_spec(role: Seq<char>) -> Seq<char> {
    "\u{1f4ac} "@ + upper_of(role)
}

/// An optional borrowed string, seen as an optional character
/// sequence.
pub open spec fn opt_str_view(c: Option<&str>) -> Option<Seq<char>> {
    match c {
        Some(s) => Some(s@),
        None => None,
    }
}

/// An optional owned string, seen as an optional character sequence.
pub open spec fn opt_string_view(c: Option<String>) -> Option<Seq<char>> {
    match c {
        Some(s) => Some(s@),
        None => None,
    }
}

/// The formatter's output: the platform-native rich message payload.
#[derive(Debug)]
pub struct RenderedMessage {
    pub title: String,
    pub body: String,
    pub color: u32,
    pub timestamp: u64,
    pub footer: Option<String>,
}

/// What it means for `r` to be the rendering of the entry
/// `(role, msg, ctx)` captured at clock reading `now`.
pub open spec fn is_render_of(
    r: RenderedMessage,
    role: Seq<char>,
    msg: Seq<char>,
    ctx: Option<Seq<char>>,
    now: u64,
) -> bool {
    &&& r.title@ == title_spec(role)
    &&& r.body@ == msg
    &&& r.color == color_spec(role)
    &&& r.timestamp == now
    &&& opt_string_view(r.footer) == ctx
}

/// The colour for a role, matching `color_spec`.
pub fn color_of(role: &str) -> (c: u32)
    ensures
        c == color_spec(role@),
{
    if str_eq(role, "human") {
        COLOR_HUMAN
    } else if str_eq(role, "assistant") {
        COLOR_ASSISTANT
    } else if str_eq(role, "system") {
        COLOR_SYSTEM
    } else {
        COLOR_DEFAULT
    }
}

/// Render one log entry. `now` is the clock reading the caller
/// captured for this entry; every other field is a pure function of
/// the entry itself.
pub fn format_entry(role: &str, message: &str, context: Option<&str>, now: u64) -> (r:
    RenderedMessage)
    ensures
        is_render_of(r, role@, message@, opt_str_view(context), now),
{
    let upper = to_upper(role);
    let mut title = String::from_str("\u{1f4ac} ");
    title.append(upper.as_str());
    let body = String::from_str(message);
    let footer = match context {
        Some(c) => Some(String::from_str(c)),
        None => None,
    };
    RenderedMessage { title, body, color: color_of(role), timestamp: now, footer }
}

/// Deterministic formatting: two renderings of the same entry agree on
/// the title, body, colour and footer; only the captured clock reading
/// may differ.
pub proof fn lemma_format_deterministic(
    a: RenderedMessage,
    b: RenderedMessage,
    role: Seq<char>,
    msg: Seq<char>,
    ctx: Option<Seq<char>>,
    t1: u64,
    t2: u64,
)
    requires
        is_render_of(a, role, msg, ctx, t1),
        is_render_of(b, role, msg, ctx, t2),
    ensures
        a.title@ == b.title@,
        a.body@ == b.body@,
        a.color == b.color,
        opt_string_view(a.footer) == opt_string_view(b.footer),
{
}

/// The four role categories map to four pairwise distinct colours, and
/// every unrecognized role gets the catch-all colour.
pub proof fn lemma_role_colors_distinct()
    ensures
        color_spec("human"@) == COLOR_HUMAN,
        color_spec("assistant"@) == COLOR_ASSISTANT,
        color_spec("system"@) == COLOR_SYSTEM,
        forall|role: Seq<char>|
            role != "human"@ && role != "assistant"@ && role != "system"@ ==> color_spec(role)
                == COLOR_DEFAULT,
        COLOR_HUMAN != COLOR_ASSISTANT,
        COLOR_HUMAN != COLOR_SYSTEM,
        COLOR_HUMAN != COLOR_DEFAULT,
        COLOR_ASSISTANT != COLOR_SYSTEM,
        COLOR_ASSISTANT != COLOR_DEFAULT,
        COLOR_SYSTEM != COLOR_DEFAULT,
{
    reveal_strlit("human");
    reveal_strlit("assistant");
    reveal_strlit("system");
    assert("human"@.len() == 5);
    assert("assistant"@.len() == 9);
    assert("system"@.len() == 6);
}

} // verus!
