//! Which conversation a quoted reply belongs to.
//!
//! A reply names the message that it quotes; some platforms also hand over the quoted text. From
//! these come the questions to ask of the recorded routes, in the order in which they are asked.

use vstd::prelude::*;
use vstd::string::*;

use crate::json;
use crate::json::{Json, JsonView};
use crate::text;
use crate::text::{
    collapsed, comes_before, same_text, split_at_char, split_at_first, stripped_suffixes, to_chars, trimmed,
    trimmed_end, unified_newlines,
};
use crate::types::PluginType;

verus! {

// ── Quoted text ─────────────────────────────────────────────────────

/// The quoted text that a platform handed over with a message.
pub open spec fn quoted_text(raw: Option<JsonView>) -> Option<Seq<char>> {
    json::text_of(json::entry(raw, "quoted_text"@))
}

/// The quoted text that a platform handed over with a message.
pub fn quoted_text_from_raw(raw: Option<&Json>) -> (r: Option<&str>)
    ensures
        r.deep_view() == quoted_text(raw.deep_view()),
{
    match raw {
        Some(value) => value.text_at("quoted_text"),
        None => None,
    }
}

/// A line of a preview: one space between words, none around the label before a colon.
pub open spec fn preview_line(line: Seq<char>) -> Seq<char> {
    let bare = text::trim(line);
    match text::split_once(bare, '：') {
        Some((label, rest)) => text::trim_end(label) + seq!['：'] + text::collapse(rest),
        None => match text::split_once(bare, ':') {
            Some((label, rest)) => text::trim_end(label) + seq![':'] + text::collapse(rest),
            None => text::collapse(bare),
        },
    }
}

/// The lines of a preview that say anything.
pub open spec fn preview_lines(lines: Seq<Seq<char>>) -> Seq<Seq<char>>
    decreases lines.len(),
{
    if lines.len() == 0 {
        Seq::empty()
    } else if preview_line(lines.last()).len() == 0 {
        preview_lines(lines.drop_last())
    } else {
        preview_lines(lines.drop_last()).push(preview_line(lines.last()))
    }
}

/// Quoted text as previews are compared: its lines that say anything, each with its spacing evened.
pub open spec fn preview(quoted: Seq<char>) -> Seq<char> {
    text::join(preview_lines(text::split(text::unify_newlines(quoted), '\n')), seq!['\n'])
}

/// What follows the first wide colon, or the first colon where there is no wide one.
pub open spec fn after_label(s: Seq<char>) -> Option<Seq<char>> {
    match text::split_once(s, '：') {
        Some((_, rest)) => Some(rest),
        None => match text::split_once(s, ':') {
            Some((_, rest)) => Some(rest),
            None => None,
        },
    }
}

/// `s` without the dots by which a client marks that it cut the text.
pub open spec fn without_ellipsis(s: Seq<char>) -> Seq<char> {
    text::trim(text::strip_suffixes(text::strip_suffixes(s, "..."@), seq!['…']))
}

/// Whether `candidate` is a text under which the quoted message may have been recorded: the whole
/// preview, the preview without its first label, or the preview without its ellipsis.
pub open spec fn is_candidate(quoted: Option<Seq<char>>, candidate: Seq<char>) -> bool {
    quoted matches Some(value) && candidate.len() > 0 && preview(value).len() > 0 && {
        ||| candidate == preview(value)
        ||| after_label(preview(value)) matches Some(rest) && candidate == text::trim(rest)
        ||| candidate == without_ellipsis(preview(value))
    }
}

/// `s`, which ascends, with `x` at its place; `s` itself where `x` is in it.
pub open spec fn insert_sorted(s: Seq<Seq<char>>, x: Seq<char>) -> Seq<Seq<char>>
    decreases s.len(),
{
    if s.len() == 0 {
        seq![x]
    } else if s[0] == x {
        s
    } else if text::text_before(x, s[0]) {
        seq![x] + s
    } else {
        seq![s[0]] + insert_sorted(s.drop_first(), x)
    }
}

/// `s` with `x` at its place, where `x` holds anything.
pub open spec fn insert_nonempty(s: Seq<Seq<char>>, x: Seq<char>) -> Seq<Seq<char>> {
    if x.len() == 0 {
        s
    } else {
        insert_sorted(s, x)
    }
}

/// The texts under which a quoted message may have been recorded, in ascending order.
pub open spec fn candidates(quoted: Option<Seq<char>>) -> Seq<Seq<char>> {
    match quoted {
        Some(value) => {
            let whole = preview(value);
            if whole.len() == 0 {
                Seq::empty()
            } else {
                let labelled = match after_label(whole) {
                    Some(rest) => insert_nonempty(seq![whole], text::trim(rest)),
                    None => seq![whole],
                };
                insert_nonempty(labelled, without_ellipsis(whole))
            }
        },
        None => Seq::empty(),
    }
}

proof fn lemma_insert_sorted(s: Seq<Seq<char>>, x: Seq<char>)
    requires
        text::ascending(s),
    ensures
        text::ascending(insert_sorted(s, x)),
        forall|y: Seq<char>| insert_sorted(s, x).contains(y) <==> (s.contains(y) || y == x),
    decreases s.len(),
{
    let r = insert_sorted(s, x);
    if s.len() == 0 {
        assert(r[0] == x);
    } else if s[0] == x {
    } else if text::text_before(x, s[0]) {
        assert forall|i: int, j: int| 0 <= i < j < r.len() implies text::text_before(
            #[trigger] r[i],
            #[trigger] r[j],
        ) by {
            if i == 0 && j > 1 {
                text::text_order_is_transitive(x, s[0], s[j - 1]);
            }
        }
        assert forall|y: Seq<char>| r.contains(y) <==> (s.contains(y) || y == x) by {
            assert(r[0] == x);
            if s.contains(y) {
                let k = choose|k: int| 0 <= k < s.len() && s[k] == y;
                assert(r[k + 1] == y);
            }
            if r.contains(y) && y != x {
                let k = choose|k: int| 0 <= k < r.len() && r[k] == y;
                assert(s[k - 1] == y);
            }
        }
    } else {
        let rest = s.drop_first();
        assert forall|i: int, j: int| 0 <= i < j < rest.len() implies text::text_before(
            #[trigger] rest[i],
            #[trigger] rest[j],
        ) by {
            assert(rest[i] == s[i + 1] && rest[j] == s[j + 1]);
        }
        lemma_insert_sorted(rest, x);
        let inner = insert_sorted(rest, x);
        text::text_order_is_total(x, s[0]);
        assert forall|i: int, j: int| 0 <= i < j < r.len() implies text::text_before(
            #[trigger] r[i],
            #[trigger] r[j],
        ) by {
            if i == 0 {
                assert(inner.contains(inner[j - 1]));
                if rest.contains(inner[j - 1]) {
                    let k = choose|k: int| 0 <= k < rest.len() && rest[k] == inner[j - 1];
                    assert(s[k + 1] == inner[j - 1]);
                }
            }
        }
        assert forall|y: Seq<char>| r.contains(y) <==> (s.contains(y) || y == x) by {
            assert(r =~= seq![s[0]] + inner);
            assert(s =~= seq![s[0]] + rest);
            assert(r[0] == s[0]);
            assert(r.contains(s[0]) && s.contains(s[0]));
            assert(inner.contains(y) <==> (rest.contains(y) || y == x));
            if r.contains(y) && y != s[0] {
                let k = choose|k: int| 0 <= k < r.len() && r[k] == y;
                assert(inner[k - 1] == y);
                assert(inner.contains(y));
            }
            if inner.contains(y) {
                let k = choose|k: int| 0 <= k < inner.len() && inner[k] == y;
                assert(r[k + 1] == y);
            }
            if rest.contains(y) {
                let m = choose|m: int| 0 <= m < rest.len() && rest[m] == y;
                assert(s[m + 1] == y);
            }
            if s.contains(y) && y != s[0] {
                let k = choose|k: int| 0 <= k < s.len() && s[k] == y;
                assert(rest[k - 1] == y);
                assert(rest.contains(y));
            }
        }
    }
}

/// The candidates ascend, so that none occurs twice, and they are all there are.
pub proof fn candidates_are_ordered_and_complete(quoted: Option<Seq<char>>)
    ensures
        text::ascending(candidates(quoted)),
        forall|c: Seq<char>| candidates(quoted).contains(c) <==> is_candidate(quoted, c),
{
    if let Some(value) = quoted {
        let whole = preview(value);
        if whole.len() > 0 {
            let first = seq![whole];
            assert(first[0] == whole);
            let labelled = match after_label(whole) {
                Some(rest) => insert_nonempty(first, text::trim(rest)),
                None => first,
            };
            if let Some(rest) = after_label(whole) {
                lemma_insert_sorted(first, text::trim(rest));
            }
            assert(text::ascending(labelled));
            lemma_insert_sorted(labelled, without_ellipsis(whole));
            assert forall|c: Seq<char>| labelled.contains(c) <==> (c == whole || (after_label(
                whole,
            ) matches Some(rest) && c.len() > 0 && c == text::trim(rest))) by {
                assert(first.contains(c) <==> c == whole);
            }
            assert forall|c: Seq<char>| candidates(quoted).contains(c) <==> is_candidate(
                quoted,
                c,
            ) by {
                if without_ellipsis(whole).len() > 0 {
                    assert(candidates(quoted).contains(c) <==> (labelled.contains(c) || c
                        == without_ellipsis(whole)));
                } else {
                    assert(candidates(quoted) == labelled);
                }
            }
        }
    }
}

fn insert_text(texts: &mut Vec<String>, x: String)
    ensures
        final(texts).deep_view() == insert_nonempty(old(texts).deep_view(), x@),
{
    if x.as_str().is_empty() {
        return ;
    }
    let ghost s = texts.deep_view();
    let mut i: usize = 0;
    assert(s.skip(0) =~= s);
    assert(s.take(0) + insert_sorted(s, x@) =~= insert_sorted(s, x@));
    while i < texts.len()
        invariant
            i <= texts@.len(),
            texts.deep_view() == s,
            s == old(texts).deep_view(),
            x@.len() > 0,
            insert_sorted(s, x@) == s.take(i as int) + insert_sorted(s.skip(i as int), x@),
        decreases texts@.len() - i,
    {
        let ghost rest = s.skip(i as int);
        assert(rest[0] == texts@[i as int]@);
        if same_text(texts[i].as_str(), x.as_str()) {
            assert(s.take(i as int) + rest =~= s);
            return ;
        }
        if comes_before(x.as_str(), texts[i].as_str()) {
            texts.insert(i, x);
            assert(texts.deep_view() =~= s.take(i as int) + (seq![x@] + rest));
            return ;
        }
        proof {
            assert(rest.drop_first() =~= s.skip(i as int + 1));
            assert(s.take(i as int) + (seq![rest[0]] + insert_sorted(rest.drop_first(), x@))
                =~= s.take(i as int + 1) + insert_sorted(s.skip(i as int + 1), x@));
        }
        i = i + 1;
    }
    texts.push(x);
    assert(texts.deep_view() =~= s.take(i as int) + seq![x@]);
}

fn with_label(label: &str, colon: char, rest: &str) -> (r: String)
    ensures
        r@ == text::trim_end(label@) + seq![colon] + text::collapse(rest@),
{
    let mut out = trimmed_end(label);
    out.push(colon);
    let tail = collapsed(rest);
    let line = out.concat(tail.as_str());
    assert(line@ =~= text::trim_end(label@) + seq![colon] + text::collapse(rest@));
    line
}

fn normalized_line(line: &str) -> (r: String)
    ensures
        r@ == preview_line(line@),
{
    let bare = trimmed(line);
    match split_at_first(bare.as_str(), '：') {
        Some((label, rest)) => with_label(label.as_str(), '：', rest.as_str()),
        None => match split_at_first(bare.as_str(), ':') {
            Some((label, rest)) => with_label(label.as_str(), ':', rest.as_str()),
            None => collapsed(bare.as_str()),
        },
    }
}

fn normalized_preview(quoted: &str) -> (r: String)
    ensures
        r@ == preview(quoted@),
{
    let unified = unified_newlines(quoted);
    let lines = split_at_char(unified.as_str(), '\n');
    let mut out = String::new();
    let mut any: bool = false;
    let mut i: usize = 0;
    let ghost all = lines.deep_view();
    assert(all.take(0) =~= Seq::empty());
    while i < lines.len()
        invariant
            i <= lines@.len(),
            all == lines.deep_view(),
            out@ == text::join(preview_lines(all.take(i as int)), seq!['\n']),
            any == (preview_lines(all.take(i as int)).len() > 0),
        decreases lines@.len() - i,
    {
        let line = normalized_line(lines[i].as_str());
        let ghost before = preview_lines(all.take(i as int));
        let ghost held = out@;
        proof {
            assert(all.take(i as int + 1).drop_last() =~= all.take(i as int));
            assert(all.take(i as int + 1).last() == lines@[i as int]@);
        }
        if !line.as_str().is_empty() {
            if any {
                out.push('\n');
            }
            out.append(line.as_str());
            proof {
                text::join_of_push(before, seq!['\n'], line@);
                if before.len() > 0 {
                    assert(out@ =~= held + seq!['\n'] + line@);
                } else {
                    assert(out@ =~= line@);
                }
            }
            any = true;
        }
        i = i + 1;
    }
    assert(all.take(all.len() as int) =~= all);
    out
}

/// The texts under which a quoted message may have been recorded, in ascending order.
pub fn quoted_route_candidates(value: Option<&str>) -> (r: Vec<String>)
    ensures
        r.deep_view() == candidates(value.deep_view()),
{
    let mut out: Vec<String> = Vec::new();
    match value {
        None => {},
        Some(quoted) => {
            let whole = normalized_preview(quoted);
            if !whole.as_str().is_empty() {
                out.push(whole.clone());
                assert(out.deep_view() =~= seq![whole@]);
                match split_at_first(whole.as_str(), '：') {
                    Some((_, rest)) => {
                        insert_text(&mut out, trimmed(rest.as_str()));
                    },
                    None => match split_at_first(whole.as_str(), ':') {
                        Some((_, rest)) => {
                            insert_text(&mut out, trimmed(rest.as_str()));
                        },
                        None => {},
                    },
                }
                let dotless = stripped_suffixes(whole.as_str(), "...");
                let cut = stripped_suffixes(dotless.as_str(), "…");
                proof {
                    reveal_strlit("…");
                    assert("…"@ =~= seq!['…']);
                }
                insert_text(&mut out, trimmed(cut.as_str()));
                return out;
            }
        },
    }
    assert(out.deep_view() =~= Seq::empty());
    out
}

// ── Message ids that carry a time ───────────────────────────────────

/// The first millisecond of 2020, before which no message id was given out.
pub const EARLIEST_MESSAGE_MS: i64 = 1_577_836_800_000;

/// How far ahead of the clock a message id may lie.
pub const LATEST_MESSAGE_LEAD_MS: i64 = 86_400_000;

/// Whether `id` is a number in which a time is packed.
pub open spec fn is_snowflake(id: Seq<char>) -> bool {
    16 <= id.len() <= 20 && text::all_digits(id)
}

/// The time in milliseconds that is packed above the low 22 bits of an id.
pub open spec fn snowflake_ms(id: Seq<char>) -> int {
    (text::digits_value(id) / 4_194_304) as int
}

/// The time that a Weixin message id carries, where it carries a plausible one.
pub open spec fn message_timestamp(id: Seq<char>, now_ms: i64) -> Option<i64> {
    if is_snowflake(id) && EARLIEST_MESSAGE_MS <= snowflake_ms(id) <= now_ms
        + LATEST_MESSAGE_LEAD_MS {
        Some(snowflake_ms(id) as i64)
    } else {
        None
    }
}

/// The time that a Weixin message id carries, where it carries a plausible one.
pub fn decode_weixin_message_timestamp(message_id: &str, now_ms: i64) -> (r: Option<i64>)
    requires
        now_ms <= i64::MAX - LATEST_MESSAGE_LEAD_MS,
    ensures
        r == message_timestamp(message_id@, now_ms),
{
    let chars = to_chars(message_id);
    if chars.len() < 16 || chars.len() > 20 {
        return None;
    }
    let mut value: u128 = 0;
    let mut i: usize = 0;
    assert(chars@.take(0) =~= Seq::empty());
    assert(text::power_of_ten(20) == 100_000_000_000_000_000_000) by {
        reveal_with_fuel(text::power_of_ten, 21);
    }
    while i < chars.len()
        invariant
            chars@ == message_id@,
            i <= chars@.len() <= 20,
            text::all_digits(chars@.take(i as int)),
            value == text::digits_value(chars@.take(i as int)),
            value < text::power_of_ten(i as nat),
            text::power_of_ten(20) == 100_000_000_000_000_000_000,
        decreases chars@.len() - i,
    {
        let c = chars[i];
        if c < '0' || c > '9' {
            assert(!text::is_digit(message_id@[i as int]));
            return None;
        }
        proof {
            text::power_of_ten_grows(i as nat + 1, 20);
            assert(chars@.take(i as int + 1).drop_last() =~= chars@.take(i as int));
            assert(text::all_digits(chars@.take(i as int + 1))) by {
                assert forall|k: int| 0 <= k < i + 1 implies text::is_digit(
                    #[trigger] chars@.take(i as int + 1)[k],
                ) by {
                    if k < i {
                        assert(text::is_digit(chars@.take(i as int)[k]));
                    }
                }
            }
        }
        value = value * 10 + (c as u32 - '0' as u32) as u128;
        i = i + 1;
    }
    proof {
        assert(chars@.take(chars@.len() as int) =~= message_id@);
        text::power_of_ten_grows(i as nat, 20);
    }
    let timestamp: i64 = (value / 4_194_304) as i64;
    if timestamp >= EARLIEST_MESSAGE_MS && timestamp <= now_ms + LATEST_MESSAGE_LEAD_MS {
        Some(timestamp)
    } else {
        None
    }
}

/// An id made from a plausible time, whatever its low bits, carries that time.
pub proof fn timestamp_is_read_back(ms: nat, low: nat, now_ms: i64)
    requires
        low < 4_194_304,
        EARLIEST_MESSAGE_MS <= ms <= now_ms + LATEST_MESSAGE_LEAD_MS,
        ms * 4_194_304 + low < 100_000_000_000_000_000_000,
    ensures
        message_timestamp(text::digits(ms * 4_194_304 + low), now_ms) == Some(ms as i64),
{
    let id = ms * 4_194_304 + low;
    text::digits_read_back(id);
    reveal_with_fuel(text::power_of_ten, 21);
    text::digits_length(id, 20);
    text::digits_length(id, 16);
    assert(id / 4_194_304 == ms);
}

// ── Questions to the recorded routes ────────────────────────────────

/// How far a time in a message id may lie from a recorded delivery.
pub const MAX_REPLY_SKEW_MS: i64 = 3_000;

/// A question to the recorded routes of one owner and platform: which conversation?
#[derive(Debug, PartialEq, Eq)]
pub enum RouteQuery {
    /// The one whose message has this id.
    Message {
        chat_id: String,
        message_id: String,
    },
    /// The one whose message was sent at about this time.
    Timestamp {
        chat_id: String,
        reply_timestamp: i64,
        max_skew_ms: i64,
    },
    /// The one whose message begins like this.
    Preview {
        chat_id: String,
        quoted_text: String,
        require_unique: bool,
    },
}

/// The mathematical value of a [`RouteQuery`].
#[verifier::ext_equal]
pub enum RouteQueryView {
    Message {
        chat_id: Seq<char>,
        message_id: Seq<char>,
    },
    Timestamp {
        chat_id: Seq<char>,
        reply_timestamp: i64,
        max_skew_ms: i64,
    },
    Preview {
        chat_id: Seq<char>,
        quoted_text: Seq<char>,
        require_unique: bool,
    },
}

impl DeepView for RouteQuery {
    type V = RouteQueryView;

    open spec fn deep_view(&self) -> RouteQueryView {
        match self {
            RouteQuery::Message { chat_id, message_id } => RouteQueryView::Message {
                chat_id: chat_id@,
                message_id: message_id@,
            },
            RouteQuery::Timestamp { chat_id, reply_timestamp, max_skew_ms } => RouteQueryView::Timestamp {
                chat_id: chat_id@,
                reply_timestamp: *reply_timestamp,
                max_skew_ms: *max_skew_ms,
            },
            RouteQuery::Preview { chat_id, quoted_text, require_unique } => RouteQueryView::Preview {
                chat_id: chat_id@,
                quoted_text: quoted_text@,
                require_unique: *require_unique,
            },
        }
    }
}

impl Clone for RouteQuery {
    fn clone(&self) -> (r: Self)
        ensures
            r.deep_view() == self.deep_view(),
    {
        match self {
            RouteQuery::Message { chat_id, message_id } => RouteQuery::Message {
                chat_id: chat_id.clone(),
                message_id: message_id.clone(),
            },
            RouteQuery::Timestamp { chat_id, reply_timestamp, max_skew_ms } => RouteQuery::Timestamp {
                chat_id: chat_id.clone(),
                reply_timestamp: *reply_timestamp,
                max_skew_ms: *max_skew_ms,
            },
            RouteQuery::Preview { chat_id, quoted_text, require_unique } => RouteQuery::Preview {
                chat_id: chat_id.clone(),
                quoted_text: quoted_text.clone(),
                require_unique: *require_unique,
            },
        }
    }
}

/// The questions that find the conversation of a reply, the surest first.
pub open spec fn route_queries(
    platform: PluginType,
    chat_id: Seq<char>,
    platform_user_id: Seq<char>,
    message_id: Seq<char>,
    quoted: Option<Seq<char>>,
    now_ms: i64,
) -> Seq<RouteQueryView> {
    let exact = seq![RouteQueryView::Message { chat_id, message_id }];
    let by_user = if platform == PluginType::Lark && platform_user_id != chat_id {
        seq![RouteQueryView::Message { chat_id: platform_user_id, message_id }]
    } else {
        Seq::empty()
    };
    let by_time = match message_timestamp(message_id, now_ms) {
        Some(reply_timestamp) => if platform == PluginType::Weixin {
            seq![
                RouteQueryView::Timestamp { chat_id, reply_timestamp, max_skew_ms: MAX_REPLY_SKEW_MS },
            ]
        } else {
            Seq::empty()
        },
        None => Seq::empty(),
    };
    let texts = candidates(quoted);
    let by_preview = Seq::new(
        texts.len(),
        |i: int|
            RouteQueryView::Preview {
                chat_id,
                quoted_text: texts[i],
                require_unique: platform == PluginType::Weixin,
            },
    );
    exact + by_user + by_time + by_preview
}

/// The questions that find the conversation of a reply, the surest first.
pub fn reply_route_queries(
    platform: PluginType,
    chat_id: &str,
    platform_user_id: &str,
    message_id: &str,
    quoted_text: Option<&str>,
    now_ms: i64,
) -> (r: Vec<RouteQuery>)
    requires
        now_ms <= i64::MAX - LATEST_MESSAGE_LEAD_MS,
    ensures
        r.deep_view() == route_queries(
            platform,
            chat_id@,
            platform_user_id@,
            message_id@,
            quoted_text.deep_view(),
            now_ms,
        ),
{
    let mut out: Vec<RouteQuery> = Vec::new();
    out.push(RouteQuery::Message { chat_id: chat_id.to_owned(), message_id: message_id.to_owned() });
    let ghost exact = seq![
        RouteQueryView::Message { chat_id: chat_id@, message_id: message_id@ },
    ];
    assert(out.deep_view() =~= exact);
    if platform == PluginType::Lark && !same_text(platform_user_id, chat_id) {
        out.push(
            RouteQuery::Message {
                chat_id: platform_user_id.to_owned(),
                message_id: message_id.to_owned(),
            },
        );
        assert(out.deep_view() =~= exact + seq![
            RouteQueryView::Message { chat_id: platform_user_id@, message_id: message_id@ },
        ]);
    }
    let ghost before_time = out.deep_view();
    if platform == PluginType::Weixin {
        match decode_weixin_message_timestamp(message_id, now_ms) {
            Some(reply_timestamp) => {
                out.push(
                    RouteQuery::Timestamp {
                        chat_id: chat_id.to_owned(),
                        reply_timestamp,
                        max_skew_ms: MAX_REPLY_SKEW_MS,
                    },
                );
                assert(out.deep_view() =~= before_time + seq![
                    RouteQueryView::Timestamp {
                        chat_id: chat_id@,
                        reply_timestamp,
                        max_skew_ms: MAX_REPLY_SKEW_MS,
                    },
                ]);
            },
            None => {},
        }
    }
    let ghost before_previews = out.deep_view();
    let texts = quoted_route_candidates(quoted_text);
    let ghost by_preview = Seq::new(
        texts.deep_view().len(),
        |i: int|
            RouteQueryView::Preview {
                chat_id: chat_id@,
                quoted_text: texts.deep_view()[i],
                require_unique: platform == PluginType::Weixin,
            },
    );
    let mut i: usize = 0;
    assert(before_previews + by_preview.take(0) =~= before_previews);
    while i < texts.len()
        invariant
            i <= texts@.len(),
            by_preview.len() == texts@.len(),
            out.deep_view() == before_previews + by_preview.take(i as int),
            forall|k: int|
                0 <= k < texts@.len() ==> #[trigger] by_preview[k] == (RouteQueryView::Preview {
                    chat_id: chat_id@,
                    quoted_text: texts@[k]@,
                    require_unique: platform == PluginType::Weixin,
                }),
        decreases texts@.len() - i,
    {
        let ghost held = out.deep_view();
        out.push(
            RouteQuery::Preview {
                chat_id: chat_id.to_owned(),
                quoted_text: texts[i].clone(),
                require_unique: platform == PluginType::Weixin,
            },
        );
        assert(out.deep_view() =~= held.push(by_preview[i as int]));
        assert(out.deep_view() =~= before_previews + by_preview.take(i as int + 1));
        i = i + 1;
    }
    proof {
        assert(by_preview.take(by_preview.len() as int) =~= by_preview);
        let by_user = if platform == PluginType::Lark && platform_user_id@ != chat_id@ {
            seq![RouteQueryView::Message { chat_id: platform_user_id@, message_id: message_id@ }]
        } else {
            Seq::empty()
        };
        assert(before_time =~= exact + by_user);
        assert(out.deep_view() =~= route_queries(
            platform,
            chat_id@,
            platform_user_id@,
            message_id@,
            quoted_text.deep_view(),
            now_ms,
        ));
    }
    out
}

/// The first question is for the quoted message itself, in the chat of the reply.
pub proof fn quoted_message_is_asked_for(
    platform: PluginType,
    chat_id: Seq<char>,
    platform_user_id: Seq<char>,
    message_id: Seq<char>,
    quoted: Option<Seq<char>>,
    now_ms: i64,
)
    ensures
        ({
            let queries = route_queries(
                platform,
                chat_id,
                platform_user_id,
                message_id,
                quoted,
                now_ms,
            );
            &&& queries.len() > 0
            &&& queries[0] == RouteQueryView::Message { chat_id, message_id }
        }),
{
}

/// What is asked about a quoted message. The message itself is asked for in the chat of the reply, and
/// on Lark also under the user; on WeChat, where the id carries a time, a message of about that time;
/// and last, on every platform, the texts that the quote may stand for, which on WeChat must fit one
/// message alone. Nothing else is asked.
pub proof fn questions_about_a_quote(
    platform: PluginType,
    chat_id: Seq<char>,
    user: Seq<char>,
    message_id: Seq<char>,
    quoted: Option<Seq<char>>,
    now_ms: i64,
    query: RouteQueryView,
)
    ensures
        route_queries(platform, chat_id, user, message_id, quoted, now_ms).contains(query) <==> match query {
            RouteQueryView::Message { chat_id: asked, message_id: wanted } => {
                &&& wanted == message_id
                &&& asked == chat_id || (platform == PluginType::Lark && asked == user)
            },
            RouteQueryView::Timestamp { chat_id: asked, reply_timestamp, max_skew_ms } => {
                &&& asked == chat_id
                &&& platform == PluginType::Weixin
                &&& message_timestamp(message_id, now_ms) == Some(reply_timestamp)
                &&& max_skew_ms == 3000
            },
            RouteQueryView::Preview { chat_id: asked, quoted_text, require_unique } => {
                &&& asked == chat_id
                &&& candidates(quoted).contains(quoted_text)
                &&& require_unique == (platform == PluginType::Weixin)
            },
        },
{
    let exact = seq![RouteQueryView::Message { chat_id, message_id }];
    let by_user = if platform == PluginType::Lark && user != chat_id {
        seq![RouteQueryView::Message { chat_id: user, message_id }]
    } else {
        Seq::empty()
    };
    let by_time = match message_timestamp(message_id, now_ms) {
        Some(reply_timestamp) => if platform == PluginType::Weixin {
            seq![
                RouteQueryView::Timestamp { chat_id, reply_timestamp, max_skew_ms: MAX_REPLY_SKEW_MS },
            ]
        } else {
            Seq::empty()
        },
        None => Seq::empty(),
    };
    let texts = candidates(quoted);
    let by_preview = Seq::new(
        texts.len(),
        |i: int|
            RouteQueryView::Preview {
                chat_id,
                quoted_text: texts[i],
                require_unique: platform == PluginType::Weixin,
            },
    );
    let all = route_queries(platform, chat_id, user, message_id, quoted, now_ms);
    assert(all == exact + by_user + by_time + by_preview);
    let a = exact.len() as int;
    let b = a + by_user.len();
    let c = b + by_time.len();
    assert(all[0] == exact[0]);
    if by_user.len() > 0 {
        assert(all[a] == by_user[0]);
    }
    if by_time.len() > 0 {
        assert(all[b] == by_time[0]);
    }
    assert forall|i: int| 0 <= i < texts.len() implies all[c + i] == #[trigger] by_preview[i] by {
    }
    if let RouteQueryView::Preview { quoted_text, .. } = query {
        if texts.contains(quoted_text) {
            let i = choose|i: int| 0 <= i < texts.len() && texts[i] == quoted_text;
            assert(all[c + i] == by_preview[i]);
        }
        if all.contains(query) {
            let k = choose|k: int| 0 <= k < all.len() && all[k] == query;
            assert(k >= c);
            assert(all[k] == by_preview[k - c]);
            assert(texts.contains(texts[k - c]));
        }
    } else if all.contains(query) {
        let k = choose|k: int| 0 <= k < all.len() && all[k] == query;
        if k >= c {
            assert(all[k] == by_preview[k - c]);
        }
    }
}

/// The texts that a quote may stand for: the quote with its white space in order; what follows the
/// first colon in it; and the quote without the dots at its end. None of them is empty.
pub proof fn texts_that_a_quote_may_stand_for(quoted: Seq<char>, candidate: Seq<char>)
    ensures
        ({
            let whole = preview(quoted);
            let labelled = match text::split_once(whole, '：') {
                Some((_, rest)) => Some(text::trim(rest)),
                None => match text::split_once(whole, ':') {
                    Some((_, rest)) => Some(text::trim(rest)),
                    None => None,
                },
            };
            let undotted = text::trim(
                text::strip_suffixes(text::strip_suffixes(whole, "..."@), seq!['…']),
            );
            candidates(Some(quoted)).contains(candidate) <==> candidate.len() > 0 && whole.len() > 0 && {
                ||| candidate == whole
                ||| labelled == Some(candidate)
                ||| candidate == undotted
            }
        }),
        candidates(None).len() == 0,
{
    candidates_are_ordered_and_complete(Some(quoted));
    assert(candidates(Some(quoted)).contains(candidate) <==> is_candidate(Some(quoted), candidate));
    let whole = preview(quoted);
    assert(without_ellipsis(whole) == text::trim(
        text::strip_suffixes(text::strip_suffixes(whole, "..."@), seq!['…']),
    ));
    match after_label(whole) {
        Some(rest) => {
            assert(text::trim(rest) == text::trim(after_label(whole)->Some_0));
        },
        None => {},
    }
}

proof fn lemma_lines_stay(lines: Seq<Seq<char>>)
    requires
        forall|i: int|
            0 <= i < lines.len() ==> (#[trigger] lines[i]).len() > 0 && preview_line(lines[i])
                == lines[i],
    ensures
        preview_lines(lines) == lines,
    decreases lines.len(),
{
    if lines.len() > 0 {
        let earlier = lines.drop_last();
        assert forall|i: int| 0 <= i < earlier.len() implies (#[trigger] earlier[i]).len() > 0
            && preview_line(earlier[i]) == earlier[i] by {
            assert(lines[i].len() > 0);
        }
        lemma_lines_stay(earlier);
        assert(lines[lines.len() - 1].len() > 0);
        assert(lines =~= earlier.push(lines.last()));
    } else {
        assert(preview_lines(lines) =~= lines);
    }
}

/// A quote that is in order already stands for itself: its lines hold words that are one blank apart,
/// with a label and a colon before them or not, and none of them is empty.
pub proof fn orderly_quote_stands_for_itself(quoted: Seq<char>)
    requires
        quoted.len() > 0,
        !quoted.contains('\r'),
        forall|i: int|
            0 <= i < text::split(quoted, '\n').len() ==> ({
                let line = #[trigger] text::split(quoted, '\n')[i];
                &&& line.len() > 0
                &&& preview_line(line) == line
            }),
    ensures
        preview(quoted) == quoted,
        candidates(Some(quoted)).contains(quoted),
{
    assert forall|i: int| 0 < i < quoted.len() && quoted[i - 1] == '\r' implies #[trigger] quoted[i]
        != '\n' by {
        assert(quoted.contains(quoted[i - 1]));
    }
    text::unified_text_is_kept(quoted);
    lemma_lines_stay(text::split(quoted, '\n'));
    text::split_text_is_joined_again(quoted, '\n');
    texts_that_a_quote_may_stand_for(quoted, quoted);
}

/// A line in order: words one blank apart, or a label, a colon, and such words behind it, without any
/// blank around the colon.
pub proof fn orderly_lines_are_kept(label: Seq<char>, rest: Seq<char>)
    requires
        text::is_collapsed(rest),
    ensures
        !rest.contains('：') && !rest.contains(':') ==> preview_line(rest) == rest,
        label.len() > 0 && !text::is_space(label[0]) && !text::is_space(label.last())
            && !label.contains('：') ==> preview_line(label.push('：') + rest) == label.push('：') + rest,
        label.len() > 0 && !text::is_space(label[0]) && !text::is_space(label.last())
            && !label.contains(':') && !(label.push(':') + rest).contains('：') ==> preview_line(
            label.push(':') + rest,
        ) == label.push(':') + rest,
{
    text::collapsed_text_is_kept(rest);
    text::bare_text_is_kept(rest);
    if !rest.contains('：') && !rest.contains(':') {
        text::text_is_split_where_it_was_joined(rest, '：', Seq::empty());
        text::text_is_split_where_it_was_joined(rest, ':', Seq::empty());
    }
    if label.len() > 0 && !text::is_space(label[0]) && !text::is_space(label.last()) {
        let wide = label.push('：') + rest;
        let narrow = label.push(':') + rest;
        assert(wide[0] == label[0] && narrow[0] == label[0]);
        assert(!text::is_space(wide.last())) by {
            if rest.len() == 0 {
                assert(wide.last() == '：');
            } else {
                assert(wide.last() == rest.last());
            }
        }
        assert(!text::is_space(narrow.last())) by {
            if rest.len() == 0 {
                assert(narrow.last() == ':');
            } else {
                assert(narrow.last() == rest.last());
            }
        }
        text::bare_text_is_kept(wide);
        text::bare_text_is_kept(narrow);
        assert(text::trim_end(label) == label);
        if !label.contains('：') {
            text::text_is_split_where_it_was_joined(label, '：', rest);
            assert(preview_line(wide) =~= wide);
        }
        if !label.contains(':') && !narrow.contains('：') {
            text::text_is_split_where_it_was_joined(label, ':', rest);
            text::text_is_split_where_it_was_joined(narrow, '：', Seq::empty());
            assert(preview_line(narrow) =~= narrow);
        }
    }
}

/// White space does not tell quotes apart: a line is read without the blanks around it and with its
/// words one blank apart.
pub proof fn blanks_do_not_tell_lines_apart(line: Seq<char>)
    requires
        !text::trim(line).contains('：'),
        !text::trim(line).contains(':'),
    ensures
        preview_line(line) == text::collapse(text::trim(line)),
        text::is_collapsed(preview_line(line)),
{
    text::text_is_split_where_it_was_joined(text::trim(line), '：', Seq::empty());
    text::text_is_split_where_it_was_joined(text::trim(line), ':', Seq::empty());
    text::collapsing_collapses(text::trim(line));
}

/// When an id carries a time: it is a number of 16 to 20 digits, and the time that is left without its
/// lowest 22 bits lies between the year 2020 and a day from now.
pub proof fn plausible_times_are_read(id: Seq<char>, now_ms: i64)
    ensures
        ({
            let ms = text::digits_value(id) as int / 4_194_304;
            let plausible = 16 <= id.len() <= 20 && (forall|i: int|
                0 <= i < id.len() ==> '0' <= #[trigger] id[i] <= '9') && 1_577_836_800_000 <= ms
                <= now_ms + 86_400_000;
            &&& plausible ==> message_timestamp(id, now_ms) == Some(ms as i64)
            &&& !plausible ==> message_timestamp(id, now_ms) is None
        }),
{
    assert(text::all_digits(id) <==> (forall|i: int|
        0 <= i < id.len() ==> '0' <= #[trigger] id[i] <= '9')) by {
        if text::all_digits(id) {
            assert forall|i: int| 0 <= i < id.len() implies '0' <= #[trigger] id[i] <= '9' by {
                assert(text::is_digit(id[i]));
            }
        }
    }
}

/// The quoted words are those that the raw message carries under their name.
pub proof fn quoted_words_are_read(words: Seq<char>)
    ensures
        quoted_text(Some(JsonView::Object(seq![("quoted_text"@, JsonView::Text(words))]))) == Some(words),
        quoted_text(None) is None,
{
}

/// A quote is read line by line: every line in order, and without the lines that hold nothing.
pub proof fn quote_is_read_line_by_line(lines: Seq<Seq<char>>, line: Seq<char>, quoted: Seq<char>)
    ensures
        preview_lines(Seq::empty()) == Seq::<Seq<char>>::empty(),
        preview_line(line).len() == 0 ==> preview_lines(lines.push(line)) == preview_lines(lines),
        preview_line(line).len() > 0 ==> preview_lines(lines.push(line)) == preview_lines(lines).push(
            preview_line(line),
        ),
        preview(quoted) == text::join(
            preview_lines(text::split(text::unify_newlines(quoted), '\n')),
            seq!['\n'],
        ),
{
    assert(lines.push(line).drop_last() =~= lines);
}

/// A label is read without blanks before its colon, and what follows with its words one blank apart; a
/// wide colon comes before a narrow one.
pub proof fn labelled_line_is_read(line: Seq<char>, label: Seq<char>, rest: Seq<char>)
    ensures
        text::trim(line) == label.push('：') + rest && !label.contains('：') ==> preview_line(line)
            == text::trim_end(label).push('：') + text::collapse(rest),
        text::trim(line) == label.push(':') + rest && !label.contains(':') && !text::trim(
            line,
        ).contains('：') ==> preview_line(line) == text::trim_end(label).push(':') + text::collapse(
            rest,
        ),
{
    if text::trim(line) == label.push('：') + rest && !label.contains('：') {
        text::text_is_split_where_it_was_joined(label, '：', rest);
        assert(preview_line(line) =~= text::trim_end(label).push('：') + text::collapse(rest));
    }
    if text::trim(line) == label.push(':') + rest && !label.contains(':') && !text::trim(
        line,
    ).contains('：') {
        text::text_is_split_where_it_was_joined(label, ':', rest);
        text::text_is_split_where_it_was_joined(text::trim(line), '：', Seq::empty());
        assert(preview_line(line) =~= text::trim_end(label).push(':') + text::collapse(rest));
    }
}

/// How sure a question is of its message: one for the message itself most, one for its text least.
pub open spec fn question_rank(query: RouteQueryView) -> int {
    match query {
        RouteQueryView::Message { .. } => 0,
        RouteQueryView::Timestamp { .. } => 1,
        RouteQueryView::Preview { .. } => 2,
    }
}

/// The surest question comes first and each is asked once: for the message in the chat, for the message
/// under a user on Lark, for the time, and then for the texts in their order.
pub proof fn surest_question_comes_first(
    platform: PluginType,
    chat_id: Seq<char>,
    user: Seq<char>,
    message_id: Seq<char>,
    quoted: Option<Seq<char>>,
    now_ms: i64,
)
    ensures
        ({
            let all = route_queries(platform, chat_id, user, message_id, quoted, now_ms);
            let texts = candidates(quoted);
            let by_user: int = if platform == PluginType::Lark && user != chat_id {
                1
            } else {
                0
            };
            let by_time: int = if platform == PluginType::Weixin && message_timestamp(message_id, now_ms)
                is Some {
                1
            } else {
                0
            };
            &&& all.len() == 1 + by_user + by_time + texts.len()
            &&& all[0] == RouteQueryView::Message { chat_id, message_id }
            &&& forall|i: int, j: int|
                0 <= i < j < all.len() ==> question_rank(#[trigger] all[i]) <= question_rank(
                    #[trigger] all[j],
                )
            &&& forall|i: int|
                0 <= i < texts.len() ==> all[1 + by_user + by_time + i] == RouteQueryView::Preview {
                    chat_id,
                    quoted_text: #[trigger] texts[i],
                    require_unique: platform == PluginType::Weixin,
                }
        }),
{
}

} // verus!
