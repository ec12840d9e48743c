//! How the output of a tool is shown to the model: wrapped, bounded, and unable to close its own
//! wrapper.

use crate::text;
use vstd::prelude::*;

verus! {

/// The most bytes that a wrapped output has.
pub const TOOL_OUTPUT_LIMIT: usize = 65_536;

/// What stands in place of the part that did not fit.
pub const TOOL_OUTPUT_TRUNCATION_MARKER: &'static str = "\n... output truncated";

/// What ends a wrapped output.
pub const TOOL_OUTPUT_CLOSE: &'static str = "\n</tool_output>";

/// What a body must not hold, in any mix of upper and lower case.
pub const CLOSE_PREFIX: &'static str = "</tool_output";

const OPEN_BEFORE_NAME: &'static str = "<tool_output name=\"";

const OPEN_AFTER_NAME: &'static str = "\" trust=\"untrusted\">\n";

/// Whether the characters from `at` on spell the start of a closing tag.
pub open spec fn closes_at(s: Seq<char>, at: int) -> bool {
    0 <= at && at + CLOSE_PREFIX@.len() <= s.len() && text::lower_all(
        s.subrange(at, at + CLOSE_PREFIX@.len()),
    ) == CLOSE_PREFIX@
}

/// A body with a backslash after the `<` of every start of a closing tag.
pub open spec fn neutralized(s: Seq<char>) -> Seq<char>
    decreases s.len(),
{
    if s.len() == 0 {
        s
    } else if closes_at(s, 0) {
        seq![s[0], '\\'] + neutralized(s.drop_first())
    } else {
        seq![s[0]] + neutralized(s.drop_first())
    }
}

/// The opening tag for a tool.
pub open spec fn open_tag(tool_name: Seq<char>) -> Seq<char> {
    "<tool_output name=\""@ + tool_name + "\" trust=\"untrusted\">\n"@
}

/// The longest prefix of `s` that is encoded in at most `limit` bytes.
pub open spec fn fitting_prefix(s: Seq<char>, limit: nat) -> Seq<char>
    decreases s.len(),
{
    if s.len() == 0 || text::utf8_len(s) <= limit {
        s
    } else {
        fitting_prefix(s.drop_last(), limit)
    }
}

/// Whether a body can be shown whole.
pub open spec fn shown_whole(tool_name: Seq<char>, body: Seq<char>) -> bool {
    text::utf8_len(open_tag(tool_name)) + text::utf8_len(neutralized(body)) + text::utf8_len(
        TOOL_OUTPUT_CLOSE@,
    ) <= TOOL_OUTPUT_LIMIT
}

/// The bytes left for a body that is cut.
pub open spec fn room_for_cut_body(tool_name: Seq<char>) -> int {
    TOOL_OUTPUT_LIMIT - text::utf8_len(open_tag(tool_name)) - text::utf8_len(
        TOOL_OUTPUT_TRUNCATION_MARKER@,
    ) - text::utf8_len(TOOL_OUTPUT_CLOSE@)
}

/// A tool's output as the model sees it.
pub open spec fn wrapped(tool_name: Seq<char>, body: Seq<char>) -> Seq<char> {
    if shown_whole(tool_name, body) {
        open_tag(tool_name) + neutralized(body) + TOOL_OUTPUT_CLOSE@
    } else {
        open_tag(tool_name) + fitting_prefix(
            neutralized(body),
            room_for_cut_body(tool_name) as nat,
        ) + TOOL_OUTPUT_TRUNCATION_MARKER@ + TOOL_OUTPUT_CLOSE@
    }
}

/// Whether the wrapper itself leaves room for a body.
pub open spec fn wrapper_fits(tool_name: Seq<char>, body: Seq<char>) -> bool {
    shown_whole(tool_name, body) || room_for_cut_body(tool_name) >= 0
}

proof fn reveal_close_prefix()
    ensures
        CLOSE_PREFIX@ =~= seq!['<', '/', 't', 'o', 'o', 'l', '_', 'o', 'u', 't', 'p', 'u', 't'],
{
    reveal_strlit("</tool_output");
}

/// A window that spells a closing tag starts with `</` and holds no other `<`, and neither a
/// backslash nor a line feed.
proof fn closing_window(s: Seq<char>, at: int)
    requires
        closes_at(s, at),
    ensures
        CLOSE_PREFIX@.len() == 13,
        s[at] == '<',
        s[at + 1] == '/',
        forall|j: int| at < j < at + 13 ==> #[trigger] s[j] != '<' && s[j] != '\\' && s[j] != '\n',
{
    reveal_close_prefix();
    let w = text::lower_all(s.subrange(at, at + 13));
    assert(w[0] == text::lower(s[at]));
    assert(w[1] == text::lower(s[at + 1]));
    assert forall|j: int| at < j < at + 13 implies #[trigger] s[j] != '<' && s[j] != '\\' && s[j]
        != '\n' by {
        assert(w[j - at] == text::lower(s[j]));
        assert(w[j - at] == CLOSE_PREFIX@[j - at]);
    }
}

/// Where a neutralized text holds no `<`, it is the text that it came from.
proof fn plain_prefix(s: Seq<char>, n: int)
    requires
        0 <= n <= neutralized(s).len(),
        forall|j: int| 0 <= j < n ==> neutralized(s)[j] != '<',
    ensures
        n <= s.len(),
        s.take(n) == neutralized(s).take(n),
    decreases s.len(),
{
    if n > 0 {
        assert(s.len() > 0);
        assert(neutralized(s)[0] == s[0]);
        assert(!closes_at(s, 0)) by {
            if closes_at(s, 0) {
                closing_window(s, 0);
            }
        }
        let rest = s.drop_first();
        assert(neutralized(s) =~= seq![s[0]] + neutralized(rest));
        assert forall|j: int| 0 <= j < n - 1 implies neutralized(rest)[j] != '<' by {
            assert(neutralized(s)[j + 1] == neutralized(rest)[j]);
        }
        plain_prefix(rest, n - 1);
        assert(s.take(n) =~= seq![s[0]] + rest.take(n - 1));
        assert(neutralized(s).take(n) =~= seq![s[0]] + neutralized(rest).take(n - 1));
    }
}

/// A neutralized body holds no start of a closing tag, in any case of its letters.
pub proof fn neutralized_never_closes(s: Seq<char>, at: int)
    ensures
        !closes_at(neutralized(s), at),
    decreases s.len(),
{
    reveal_close_prefix();
    let r = neutralized(s);
    if closes_at(r, at) {
        closing_window(r, at);
        let rest = s.drop_first();
        let inner = neutralized(rest);
        if closes_at(s, 0) {
            assert(r =~= seq![s[0], '\\'] + inner);
            closing_window(s, 0);
            assert(r[1] == '\\');
            if at >= 2 {
                assert(r.subrange(at, at + 13) =~= inner.subrange(at - 2, at + 11));
                neutralized_never_closes(rest, at - 2);
            }
        } else {
            assert(r =~= seq![s[0]] + inner);
            if at >= 1 {
                assert(r.subrange(at, at + 13) =~= inner.subrange(at - 1, at + 12));
                neutralized_never_closes(rest, at - 1);
            } else {
                assert forall|j: int| 0 <= j < 12 implies inner[j] != '<' by {
                    assert(r[j + 1] == inner[j]);
                }
                plain_prefix(rest, 12);
                assert(s.subrange(0, 13) =~= seq![s[0]] + rest.take(12));
                assert(r.subrange(0, 13) =~= seq![s[0]] + inner.take(12));
            }
        }
    }
}

/// A body without any start of a closing tag stays as it is.
pub proof fn neutralized_keeps_harmless_text(s: Seq<char>)
    requires
        forall|at: int| !closes_at(s, at),
    ensures
        neutralized(s) == s,
    decreases s.len(),
{
    if s.len() > 0 {
        reveal_close_prefix();
        let rest = s.drop_first();
        assert forall|at: int| !closes_at(rest, at) by {
            if closes_at(rest, at) {
                assert(rest.subrange(at, at + 13) =~= s.subrange(at + 1, at + 14));
                assert(closes_at(s, at + 1));
            }
        }
        neutralized_keeps_harmless_text(rest);
        assert(!closes_at(s, 0));
        assert(s =~= seq![s[0]] + rest);
    }
}

/// The prefix that is kept fits, is a prefix, and could not be one character longer.
pub proof fn fitting_prefix_is_longest(s: Seq<char>, limit: nat)
    ensures
        ({
            let p = fitting_prefix(s, limit);
            &&& p.len() <= s.len()
            &&& p == s.take(p.len() as int)
            &&& text::utf8_len(p) <= limit
            &&& p.len() < s.len() ==> text::utf8_len(s.take(p.len() as int + 1)) > limit
        }),
    decreases s.len(),
{
    if s.len() == 0 || text::utf8_len(s) <= limit {
        assert(s =~= s.take(s.len() as int));
    } else {
        let t = s.drop_last();
        fitting_prefix_is_longest(t, limit);
        let p = fitting_prefix(t, limit);
        assert(t.take(p.len() as int) =~= s.take(p.len() as int));
        if p.len() < t.len() {
            assert(t.take(p.len() as int + 1) =~= s.take(p.len() as int + 1));
        } else {
            assert(s.take(p.len() as int + 1) =~= s);
        }
    }
}

/// A longer prefix takes at least as many bytes, so the one that is kept is the only one with a
/// longer neighbour that does not fit.
proof fn fitting_prefix_is_unique(s: Seq<char>, n: int, limit: nat)
    requires
        0 <= n <= s.len(),
        text::utf8_len(s.take(n)) <= limit,
        n < s.len() ==> text::utf8_len(s.take(n + 1)) > limit,
    ensures
        fitting_prefix(s, limit) == s.take(n),
{
    fitting_prefix_is_longest(s, limit);
    let m = fitting_prefix(s, limit).len() as int;
    if m < n {
        assert(s.take(n).take(m + 1) =~= s.take(m + 1));
        text::utf8_len_take(s.take(n), m + 1);
    } else if n < m {
        assert(s.take(m).take(n + 1) =~= s.take(n + 1));
        text::utf8_len_take(s.take(m), n + 1);
    }
}

/// A wrapped output never has more than `TOOL_OUTPUT_LIMIT` bytes.
pub proof fn wrapped_is_bounded(tool_name: Seq<char>, body: Seq<char>)
    requires
        wrapper_fits(tool_name, body),
    ensures
        text::utf8_len(wrapped(tool_name, body)) <= TOOL_OUTPUT_LIMIT,
{
    let open = open_tag(tool_name);
    if shown_whole(tool_name, body) {
        text::utf8_len_concat(open, neutralized(body));
        text::utf8_len_concat(open + neutralized(body), TOOL_OUTPUT_CLOSE@);
    } else {
        let room = room_for_cut_body(tool_name) as nat;
        let cut = fitting_prefix(neutralized(body), room);
        fitting_prefix_is_longest(neutralized(body), room);
        text::utf8_len_concat(open, cut);
        text::utf8_len_concat(open + cut, TOOL_OUTPUT_TRUNCATION_MARKER@);
        text::utf8_len_concat(open + cut + TOOL_OUTPUT_TRUNCATION_MARKER@, TOOL_OUTPUT_CLOSE@);
    }
}

/// Whatever a tool printed, the only closing tag in its wrapped output is the wrapper's own, at
/// the end: only a name that holds the start of one itself brings another.
pub proof fn wrapped_closes_only_at_its_end(tool_name: Seq<char>, body: Seq<char>, at: int)
    requires
        forall|i: int| !closes_at(tool_name, i),
    ensures
        closes_at(wrapped(tool_name, body), at) <==> at == wrapped(tool_name, body).len() - 14,
{
    reveal_close_prefix();
    reveal_strlit("\n</tool_output>");
    reveal_strlit("\n... output truncated");
    reveal_strlit("<tool_output name=\"");
    reveal_strlit("\" trust=\"untrusted\">\n");
    let r = wrapped(tool_name, body);
    let open = open_tag(tool_name);
    let whole = shown_whole(tool_name, body);
    let shown = if whole {
        neutralized(body)
    } else {
        fitting_prefix(neutralized(body), room_for_cut_body(tool_name) as nat)
    };
    let tail = if whole {
        TOOL_OUTPUT_CLOSE@
    } else {
        TOOL_OUTPUT_TRUNCATION_MARKER@ + TOOL_OUTPUT_CLOSE@
    };
    assert(r =~= open + shown + tail);
    let p = open.len() as int;
    let q = p + shown.len();
    if at == r.len() - 14 {
        assert(r.subrange(at, at + 13) =~= CLOSE_PREFIX@);
        assert(text::lower_all(CLOSE_PREFIX@) =~= CLOSE_PREFIX@);
    }
    if closes_at(r, at) {
        closing_window(r, at);
        if at < p {
            let n = "<tool_output name=\""@.len() as int;
            let m = n + tool_name.len();
            assert(r[at] == open[at]);
            if at < n {
                assert(r[1] == open[1]);
                assert(at == 0);
            } else if at < m {
                if at + 13 <= m {
                    assert(r.subrange(at, at + 13) =~= tool_name.subrange(at - n, at - n + 13));
                    assert(closes_at(tool_name, at - n));
                } else {
                    // The window would run over the quotation mark that ends the name.
                    assert(r[m] == '"');
                    assert(text::lower_all(r.subrange(at, at + 13))[m - at] == text::lower('"'));
                }
            } else {
                assert(open[at] == "\" trust=\"untrusted\">\n"@[at - m]);
            }
        } else if at < q {
            if at + 13 <= q {
                fitting_prefix_is_longest(
                    neutralized(body),
                    room_for_cut_body(tool_name) as nat,
                );
                assert(r.subrange(at, at + 13) =~= neutralized(body).subrange(
                    at - p,
                    at - p + 13,
                ));
                neutralized_never_closes(body, at - p);
            } else {
                assert(r[q] == tail[0]);
            }
        } else {
            assert(r[at] == tail[at - q]);
        }
    }
}

/// A body with a backslash after the `<` of every start of a closing tag.
pub fn neutralize_tool_output_closers(body: &str) -> (result: String)
    ensures
        result@ == neutralized(body@),
{
    let chars = text::chars_of(body);
    let mut output = String::new();
    let mut cursor: usize = 0;
    assert(body@.skip(0) =~= body@);
    while cursor < chars.len()
        invariant
            cursor <= chars.len(),
            chars@ == body@,
            output@ + neutralized(body@.skip(cursor as int)) =~= neutralized(body@),
        decreases chars.len() - cursor,
    {
        let ghost rest = body@.skip(cursor as int);
        let c = chars[cursor];
        let closes = starts_closing_tag(&chars, cursor);
        assert(closes == closes_at(rest, 0)) by {
            reveal_close_prefix();
            if cursor + 13 <= chars.len() {
                assert(rest.subrange(0, 13) =~= body@.subrange(cursor as int, cursor + 13));
            }
        }
        assert(rest.drop_first() =~= body@.skip(cursor + 1));
        output.push(c);
        if closes {
            output.push('\\');
        }
        cursor = cursor + 1;
    }
    assert(body@.skip(cursor as int) =~= Seq::<char>::empty());
    output
}

/// Whether the characters from `at` on spell the start of a closing tag.
fn starts_closing_tag(chars: &Vec<char>, at: usize) -> (result: bool)
    requires
        at <= chars.len(),
    ensures
        result == closes_at(chars@, at as int),
{
    let prefix = text::chars_of(CLOSE_PREFIX);
    if prefix.len() > chars.len() - at {
        return false;
    }
    let ghost window = text::lower_all(chars@.subrange(at as int, at + prefix.len()));
    let mut i: usize = 0;
    while i < prefix.len()
        invariant
            i <= prefix.len(),
            at + prefix.len() <= chars.len(),
            prefix@ == CLOSE_PREFIX@,
            window == text::lower_all(chars@.subrange(at as int, at + prefix.len())),
            forall|j: int| 0 <= j < i ==> #[trigger] window[j] == prefix@[j],
        decreases prefix.len() - i,
    {
        assert(window[i as int] == text::lower(chars@[at + i]));
        if text::to_lower(chars[at + i]) != prefix[i] {
            return false;
        }
        i = i + 1;
    }
    assert(window =~= prefix@);
    true
}

/// The longest prefix of `body` that is encoded in at most `limit` bytes.
fn cut_to(body: &str, limit: usize) -> (result: String)
    ensures
        result@ == fitting_prefix(body@, limit as nat),
{
    let chars = text::chars_of(body);
    let mut used: usize = 0;
    let mut n: usize = 0;
    assert(body@.take(0) =~= Seq::<char>::empty());
    while n < chars.len()
        invariant
            n <= chars.len(),
            chars@ == body@,
            used <= limit,
            used == text::utf8_len(body@.take(n as int)),
        decreases chars.len() - n,
    {
        let width = text::width_of(chars[n]);
        assert(body@.take(n + 1).drop_last() =~= body@.take(n as int));
        if width > limit - used {
            proof {
                fitting_prefix_is_unique(body@, n as int, limit as nat);
            }
            assert(chars@.subrange(0, n as int) =~= body@.take(n as int));
            return text::text_of(&chars, 0, n);
        }
        used = used + width;
        n = n + 1;
    }
    proof {
        fitting_prefix_is_unique(body@, n as int, limit as nat);
    }
    assert(body@.take(n as int) =~= body@);
    body.to_owned()
}

/// Whether the wrapper of a tool leaves room for a body.
pub fn has_room(tool_name: &str, body: &str) -> (result: bool)
    ensures
        result == wrapper_fits(tool_name@, body@),
{
    let body_text = neutralize_tool_output_closers(body);
    let open = text::concat3(OPEN_BEFORE_NAME, tool_name, OPEN_AFTER_NAME);
    let open_len = text::byte_len(open.as_str());
    let body_len = text::byte_len(body_text.as_str());
    let close_len = text::byte_len(TOOL_OUTPUT_CLOSE);
    let marker_len = text::byte_len(TOOL_OUTPUT_TRUNCATION_MARKER);
    if open_len > TOOL_OUTPUT_LIMIT {
        return false;
    }
    let left: usize = TOOL_OUTPUT_LIMIT - open_len;
    (body_len <= left && close_len <= left - body_len) || (marker_len <= left && close_len <= left
        - marker_len)
}

/// A tool's output as the model sees it: wrapped, with its closing tags neutralized, and cut so
/// that the whole has at most `TOOL_OUTPUT_LIMIT` bytes.
pub fn provider_tool_output(tool_name: &str, body: &str) -> (result: String)
    requires
        wrapper_fits(tool_name@, body@),
    ensures
        result@ == wrapped(tool_name@, body@),
{
    let body_text = neutralize_tool_output_closers(body);
    let open = text::concat3(OPEN_BEFORE_NAME, tool_name, OPEN_AFTER_NAME);
    let open_len = text::byte_len(open.as_str());
    let body_len = text::byte_len(body_text.as_str());
    let close_len = text::byte_len(TOOL_OUTPUT_CLOSE);
    let marker_len = text::byte_len(TOOL_OUTPUT_TRUNCATION_MARKER);
    let whole = open_len <= TOOL_OUTPUT_LIMIT && body_len <= TOOL_OUTPUT_LIMIT - open_len
        && close_len <= TOOL_OUTPUT_LIMIT - open_len - body_len;
    let mut output = open;
    if whole {
        output.append(body_text.as_str());
    } else {
        let available: usize = TOOL_OUTPUT_LIMIT - open_len - marker_len - close_len;
        let cut = cut_to(body_text.as_str(), available);
        output.append(cut.as_str());
        output.append(TOOL_OUTPUT_TRUNCATION_MARKER);
    }
    output.append(TOOL_OUTPUT_CLOSE);
    output
}

} // verus!
