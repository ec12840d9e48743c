//! What may come in from a channel.

use crate::text;
use vstd::prelude::*;

verus! {

/// The most bytes in a message.
pub const DISCORD_INPUT_LIMIT: usize = 4_096;

/// The texts that make a message unsafe.
pub open spec fn unsafe_marker_texts() -> Seq<Seq<char>> {
    seq![
        "act as"@,
        "assistant message"@,
        "assistant messages"@,
        "developer message"@,
        "developer messages"@,
        "disregard previous instructions"@,
        "disregard prior instructions"@,
        "function call"@,
        "function calls"@,
        "ignore all previous instructions"@,
        "ignore previous instructions"@,
        "ignore prior instructions"@,
        "system prompt"@,
        "tool call"@,
        "tool calls"@,
        "you are chatgpt"@,
        "you are now"@,
        "<system>"@,
        "<|im_start|>"@,
        "<|im_end|>"@,
    ]
}

/// The texts that make a message unsafe.
pub fn unsafe_markers() -> (result: Vec<&'static str>)
    ensures
        result@.map_values(|s: &'static str| s@) == unsafe_marker_texts(),
{
    let markers: Vec<&'static str> =
        vec![
        "act as",
        "assistant message",
        "assistant messages",
        "developer message",
        "developer messages",
        "disregard previous instructions",
        "disregard prior instructions",
        "function call",
        "function calls",
        "ignore all previous instructions",
        "ignore previous instructions",
        "ignore prior instructions",
        "system prompt",
        "tool call",
        "tool calls",
        "you are chatgpt",
        "you are now",
        "<system>",
        "<|im_start|>",
        "<|im_end|>",
    ];
    assert(markers@.map_values(|s: &'static str| s@) =~= unsafe_marker_texts());
    markers
}

/// What is left of a text: every run of white space is one blank, other control characters are
/// gone, and letters are in lower case. `after_space` says whether white space came before.
pub open spec fn scanned(s: Seq<char>, after_space: bool) -> Seq<char>
    decreases s.len(),
{
    if s.len() == 0 {
        s
    } else if text::is_space(s[0]) {
        if after_space {
            scanned(s.drop_first(), true)
        } else {
            seq![' '] + scanned(s.drop_first(), true)
        }
    } else if text::is_control(s[0]) {
        scanned(s.drop_first(), after_space)
    } else {
        seq![text::lower(s[0])] + scanned(s.drop_first(), false)
    }
}

/// What is left of a text for the scan.
pub fn normalize_discord_input(content: &str) -> (result: String)
    ensures
        result@ == scanned(content@, false),
{
    let chars = text::chars_of(content);
    let mut normalized = String::new();
    let mut after_space = false;
    let mut i: usize = 0;
    assert(content@.skip(0) =~= content@);
    while i < chars.len()
        invariant
            i <= chars.len(),
            chars@ == content@,
            normalized@ + scanned(content@.skip(i as int), after_space) =~= scanned(
                content@,
                false,
            ),
        decreases chars.len() - i,
    {
        assert(content@.skip(i as int).drop_first() =~= content@.skip(i + 1));
        let c = chars[i];
        if text::space(c) {
            if !after_space {
                normalized.push(' ');
            }
            after_space = true;
        } else if !text::control(c) {
            normalized.push(text::to_lower(c));
            after_space = false;
        }
        i = i + 1;
    }
    assert(content@.skip(i as int) =~= Seq::<char>::empty());
    normalized
}

/// Whether neither neighbour of the part of `s` from `at` to `end` is an ASCII letter or digit.
pub open spec fn stands_alone(s: Seq<char>, at: int, end: int) -> bool {
    (at == 0 || !text::is_alphanumeric(s[at - 1])) && (end == s.len() || !text::is_alphanumeric(
        s[end],
    ))
}

/// Whether a marker stands alone at one of the places at which it is found, when each search goes
/// on where the last find ended.
pub open spec fn found_alone(s: Seq<char>, marker: Seq<char>, from: int) -> bool
    decreases s.len() + 1 - from,
{
    if from < 0 || from + marker.len() > s.len() {
        false
    } else if text::occurs_at(s, marker, from) {
        stands_alone(s, from, from + marker.len()) || found_alone(
            s,
            marker,
            from + if marker.len() == 0 {
                1int
            } else {
                marker.len() as int
            },
        )
    } else {
        found_alone(s, marker, from + 1)
    }
}

/// Whether a marker is found standing alone.
pub fn contains_ascii_bounded_marker(content: &str, marker: &str) -> (result: bool)
    ensures
        result == found_alone(content@, marker@, 0),
{
    let chars = text::chars_of(content);
    let needle = text::chars_of(marker);
    if needle.len() > chars.len() {
        return false;
    }
    let last: usize = chars.len() - needle.len();
    let mut from: usize = 0;
    while from <= last
        invariant
            chars@ == content@,
            needle@ == marker@,
            needle.len() <= chars.len(),
            last == chars.len() - needle.len(),
            found_alone(content@, marker@, 0) == found_alone(content@, marker@, from as int),
        decreases chars.len() + 1 - from,
    {
        let step: usize = if text::stands_at(&chars, &needle, from) {
            let end: usize = from + needle.len();
            let free_before = from == 0 || !text::alphanumeric(chars[from - 1]);
            let free_after = end == chars.len() || !text::alphanumeric(chars[end]);
            if free_before && free_after {
                return true;
            }
            if needle.len() == 0 {
                1
            } else {
                needle.len()
            }
        } else {
            1
        };
        if step > last - from {
            assert(!found_alone(content@, marker@, from + step));
            return false;
        }
        from = from + step;
    }
    false
}

/// Whether a marker makes a scanned text unsafe: a tag anywhere, a phrase where it stands alone.
pub open spec fn marked(scanned_text: Seq<char>, marker: Seq<char>) -> bool {
    if marker.len() > 0 && marker[0] == '<' {
        text::contains(scanned_text, marker)
    } else {
        found_alone(scanned_text, marker, 0)
    }
}

/// Whether a message is too long or holds a marker.
pub open spec fn is_unsafe(content: Seq<char>) -> bool {
    text::utf8_len(content) > DISCORD_INPUT_LIMIT || exists|i: int|
        0 <= i < unsafe_marker_texts().len() && marked(
            scanned(content, false),
            #[trigger] unsafe_marker_texts()[i],
        )
}

/// Whether a message is too long or holds a marker.
pub fn discord_input_is_unsafe(content: &str) -> (result: bool)
    ensures
        result == is_unsafe(content@),
{
    if text::byte_len(content) > DISCORD_INPUT_LIMIT {
        return true;
    }
    let normalized = normalize_discord_input(content);
    let chars = text::chars_of(normalized.as_str());
    let markers = unsafe_markers();
    let ghost texts = unsafe_marker_texts();
    let mut i: usize = 0;
    while i < markers.len()
        invariant
            i <= markers.len(),
            texts == unsafe_marker_texts(),
            markers@.map_values(|s: &'static str| s@) == texts,
            normalized@ == scanned(content@, false),
            chars@ == normalized@,
            text::utf8_len(content@) <= DISCORD_INPUT_LIMIT,
            forall|j: int| 0 <= j < i ==> !marked(normalized@, #[trigger] texts[j]),
        decreases markers.len() - i,
    {
        let marker = markers[i];
        assert(texts[i as int] == marker@);
        let needle = text::chars_of(marker);
        let found = if needle.len() > 0 && needle[0] == '<' {
            text::holds(&chars, &needle)
        } else {
            contains_ascii_bounded_marker(normalized.as_str(), marker)
        };
        if found {
            return true;
        }
        i = i + 1;
    }
    false
}

/// A marker that is found standing alone does stand there alone.
pub proof fn what_is_found_stands_alone(s: Seq<char>, marker: Seq<char>, from: int)
    requires
        found_alone(s, marker, from),
    ensures
        exists|at: int|
            from <= at && #[trigger] text::occurs_at(s, marker, at) && stands_alone(
                s,
                at,
                at + marker.len(),
            ),
    decreases s.len() + 1 - from,
{
    if text::occurs_at(s, marker, from) {
        if !stands_alone(s, from, from + marker.len()) {
            what_is_found_stands_alone(
                s,
                marker,
                from + if marker.len() == 0 {
                    1int
                } else {
                    marker.len() as int
                },
            );
        }
    } else {
        what_is_found_stands_alone(s, marker, from + 1);
    }
}

/// A marker that stands alone is found, unless an occurrence that starts before it reaches into
/// it.
pub proof fn what_stands_alone_is_found(s: Seq<char>, marker: Seq<char>, from: int, at: int)
    requires
        0 <= from <= at,
        marker.len() > 0,
        text::occurs_at(s, marker, at),
        stands_alone(s, at, at + marker.len()),
        forall|i: int| at - marker.len() < i < at ==> !#[trigger] text::occurs_at(s, marker, i),
    ensures
        found_alone(s, marker, from),
    decreases at - from,
{
    if from < at {
        if text::occurs_at(s, marker, from) {
            assert(from + marker.len() <= at);
            what_stands_alone_is_found(s, marker, from + marker.len() as int, at);
        } else {
            what_stands_alone_is_found(s, marker, from + 1, at);
        }
    }
}

/// A scanned text holds no white space but blanks, and no two of them in a row.
pub proof fn scanning_leaves_single_blanks(s: Seq<char>, after_space: bool)
    ensures
        ({
            let t = scanned(s, after_space);
            &&& forall|i: int|
                0 <= i < t.len() && text::is_space(#[trigger] t[i]) ==> t[i] == ' '
            &&& forall|i: int|
                0 <= i < t.len() - 1 && #[trigger] t[i] == ' ' ==> t[i + 1] != ' '
            &&& after_space && t.len() > 0 ==> t[0] != ' '
        }),
    decreases s.len(),
{
    if s.len() > 0 {
        let rest = s.drop_first();
        if text::is_space(s[0]) {
            scanning_leaves_single_blanks(rest, true);
            assert(!text::is_control(' ') && text::is_space(' '));
            if !after_space {
                let u = scanned(rest, true);
                let t = seq![' '] + u;
                assert forall|i: int|
                    0 <= i < t.len() && text::is_space(#[trigger] t[i]) implies t[i] == ' ' by {
                    if i > 0 {
                        assert(t[i] == u[i - 1]);
                    }
                }
                assert forall|i: int| 0 <= i < t.len() - 1 && #[trigger] t[i] == ' ' implies t[i + 1]
                    != ' ' by {
                    assert(t[i + 1] == u[i]);
                    if i > 0 {
                        assert(t[i] == u[i - 1]);
                    }
                }
            }
        } else if text::is_control(s[0]) {
            scanning_leaves_single_blanks(rest, after_space);
        } else {
            scanning_leaves_single_blanks(rest, false);
            let u = scanned(rest, false);
            let c = text::lower(s[0]);
            let t = seq![c] + u;
            assert(c != ' ' && !text::is_space(c));
            assert forall|i: int|
                0 <= i < t.len() && text::is_space(#[trigger] t[i]) implies t[i] == ' ' by {
                if i > 0 {
                    assert(t[i] == u[i - 1]);
                }
            }
            assert forall|i: int| 0 <= i < t.len() - 1 && #[trigger] t[i] == ' ' implies t[i + 1]
                != ' ' by {
                assert(t[i + 1] == u[i]);
                if i > 0 {
                    assert(t[i] == u[i - 1]);
                }
            }
        }
    }
}

} // verus!
