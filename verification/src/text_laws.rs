//! What holds of texts and numbers, whatever they are.

use crate::text::{
    self, blank, lower_all, parse_decimal, parse_unsigned, separate, to_decimal, to_lower_all,
    to_octal, trim,
};
use vstd::prelude::*;

verus! {

proof fn trimmed_start_parts(s: Seq<char>)
    ensures
        ({
            let kept = text::trimmed_start(s);
            &&& kept.len() <= s.len()
            &&& kept == s.skip(s.len() - kept.len())
            &&& forall|i: int| 0 <= i < s.len() - kept.len() ==> text::is_space(#[trigger] s[i])
            &&& kept.len() > 0 ==> !text::is_space(kept[0])
        }),
    decreases s.len(),
{
    if s.len() > 0 && text::is_space(s[0]) {
        let behind = s.drop_first();
        trimmed_start_parts(behind);
        let kept = text::trimmed_start(s);
        assert(behind.skip(behind.len() - kept.len()) =~= s.skip(s.len() - kept.len()));
        assert forall|i: int| 0 <= i < s.len() - kept.len() implies text::is_space(
            #[trigger] s[i],
        ) by {
            if i > 0 {
                assert(behind[i - 1] == s[i]);
            }
        }
    } else {
        assert(s.skip(0) =~= s);
    }
}

proof fn trimmed_end_parts(s: Seq<char>)
    ensures
        ({
            let kept = text::trimmed_end(s);
            &&& kept.len() <= s.len()
            &&& kept == s.take(kept.len() as int)
            &&& forall|i: int| kept.len() <= i < s.len() ==> text::is_space(#[trigger] s[i])
            &&& kept.len() > 0 ==> !text::is_space(kept.last())
        }),
    decreases s.len(),
{
    if s.len() > 0 && text::is_space(s.last()) {
        let front = s.drop_last();
        trimmed_end_parts(front);
        let kept = text::trimmed_end(s);
        assert(front.take(kept.len() as int) =~= s.take(kept.len() as int));
        assert forall|i: int| kept.len() <= i < s.len() implies text::is_space(#[trigger] s[i]) by {
            if i < s.len() - 1 {
                assert(front[i] == s[i]);
            }
        }
    } else {
        assert(s.take(s.len() as int) =~= s);
    }
}

/// Whether a text is another with nothing but white space around it.
pub open spec fn stands_alone_in(word: Seq<char>, s: Seq<char>, from: int) -> bool {
    &&& 0 <= from <= from + word.len() <= s.len()
    &&& s.subrange(from, from + word.len()) == word
    &&& forall|i: int| 0 <= i < from ==> text::is_space(#[trigger] s[i])
    &&& forall|i: int| from + word.len() <= i < s.len() ==> text::is_space(#[trigger] s[i])
}

/// A text loses the white space around it and nothing else.
pub proof fn only_the_space_around_goes(s: &str, word: String)
    requires
        call_ensures(trim, (s,), word),
    ensures
        exists|from: int| #[trigger] stands_alone_in(word@, s@, from),
        word@.len() > 0 ==> !text::is_space(word@[0]) && !text::is_space(word@.last()),
{
    let late = text::trimmed_start(s@);
    trimmed_start_parts(s@);
    trimmed_end_parts(late);
    let from = s@.len() - late.len();
    assert(s@.subrange(from, from + word@.len()) =~= late.take(word@.len() as int));
    assert forall|i: int| from + word@.len() <= i < s@.len() implies text::is_space(
        #[trigger] s@[i],
    ) by {
        assert(late[i - from] == s@[i]);
    }
    if word@.len() > 0 {
        assert(word@[0] == late[0]);
    }
    assert(stands_alone_in(word@, s@, from));
}

/// Large letters become small ones and nothing else changes; a second time nothing does.
pub proof fn only_large_letters_change(s: &str, lowered: String)
    requires
        call_ensures(to_lower_all, (s,), lowered),
    ensures
        lowered@.len() == s@.len(),
        forall|i: int|
            0 <= i < s@.len() && !('A' <= s@[i] && s@[i] <= 'Z') ==> #[trigger] lowered@[i] == s@[i],
        forall|i: int|
            0 <= i < s@.len() && 'A' <= s@[i] && s@[i] <= 'Z' ==> (#[trigger] lowered@[i]) as u32
                == s@[i] as u32 + 32,
        lower_all(lowered@) == lowered@,
{
    assert(lower_all(lowered@) =~= lowered@);
}

/// A text says nothing exactly where nothing of it is left without the white space around it.
pub proof fn nothing_is_left_of_a_blank_text(s: &str, says_nothing: bool, word: String)
    requires
        call_ensures(blank, (s,), says_nothing),
        call_ensures(trim, (s,), word),
    ensures
        says_nothing <==> word@.len() == 0,
{
    only_the_space_around_goes(s, word);
    let from = choose|from: int| #[trigger] stands_alone_in(word@, s@, from);
    if word@.len() > 0 {
        assert(s@.subrange(from, from + word@.len())[0] == s@[from]);
    } else {
        assert(forall|i: int| 0 <= i < s@.len() ==> text::is_space(#[trigger] s@[i]));
    }
}

/// A number that is written down is read back, behind a plus sign too; and what is read is made of
/// digits.
pub proof fn a_number_is_read_back(n: u64, written: String, s: &str, read: Option<u64>)
    requires
        call_ensures(to_decimal, (n,), written),
        call_ensures(parse_decimal, (s,), read),
    ensures
        s@ == written@ ==> read == Some(n),
        read is Some ==> s@.len() > 0 && forall|i: int|
            0 <= i < s@.len() ==> '0' <= #[trigger] s@[i] && s@[i] <= '9',
{
    text::decimal_round_trip(n);
}

/// A number may stand behind a plus sign, and a number without one is read as ever.
pub proof fn a_plus_sign_may_stand_before(
    s: &str,
    signed: &str,
    read: Option<u64>,
    read_signed: Option<u64>,
)
    requires
        signed@ == seq!['+'] + s@,
        call_ensures(parse_decimal, (s,), read),
        call_ensures(parse_unsigned, (signed,), read_signed),
    ensures
        read_signed == read,
{
    assert(signed@.drop_first() =~= s@);
}

/// The value of a text of octal digits.
pub open spec fn octal_value(s: Seq<char>) -> nat
    decreases s.len(),
{
    if s.len() == 0 {
        0
    } else {
        8 * octal_value(s.drop_last()) + (s.last() as u32 - '0' as u32) as nat
    }
}

proof fn octal_spells(n: nat, width: nat)
    ensures
        octal_value(text::octal(n, width)) == n,
        text::octal(n, width).len() >= width,
        text::octal(n, width).len() > 0,
        forall|i: int|
            0 <= i < text::octal(n, width).len() ==> '0' <= #[trigger] text::octal(n, width)[i]
                && text::octal(n, width)[i] <= '7',
    decreases n + width,
{
    reveal_with_fuel(octal_value, 2);
    let whole = text::octal(n, width);
    if n < 8 && width <= 1 {
        assert(whole.drop_last() =~= Seq::<char>::empty());
    } else {
        let fewer: nat = if width > 0 {
            (width - 1) as nat
        } else {
            0
        };
        octal_spells(n / 8, fewer);
        let front = text::octal(n / 8, fewer);
        assert(whole.drop_last() =~= front);
        assert forall|i: int| 0 <= i < whole.len() implies '0' <= #[trigger] whole[i] && whole[i]
            <= '7' by {
            if i < front.len() {
                assert(whole[i] == front[i]);
            }
        }
    }
}

/// A number in octal digits is the number, in at least as many digits as were asked for.
pub proof fn octal_digits_spell_the_number(n: u32, width: u32, written: String)
    requires
        call_ensures(to_octal, (n, width), written),
    ensures
        octal_value(written@) == n,
        written@.len() >= width,
        forall|i: int| 0 <= i < written@.len() ==> '0' <= #[trigger] written@[i] && written@[i] <= '7',
{
    octal_spells(n as nat, width as nat);
}

/// One more part stands behind the separator, and a part alone stands for itself.
pub proof fn parts_stand_behind_each_other(
    parts: &Vec<String>,
    more: &Vec<String>,
    part: String,
    separator: &str,
    joined: String,
    longer: String,
)
    requires
        more@ == parts@.push(part),
        call_ensures(separate, (parts, separator), joined),
        call_ensures(separate, (more, separator), longer),
    ensures
        parts@.len() == 0 ==> joined@.len() == 0 && longer@ == part@,
        parts@.len() > 0 ==> longer@ == joined@ + separator@ + part@,
{
    assert(more@.drop_last() =~= parts@);
}

} // verus!
