//! What holds of texts.
use crate::parts;
use crate::text;
use vstd::prelude::*;

verus! {

/// What stands between two texts is found in the whole.
pub proof fn what_stands_in_a_text_is_found(
    before: Seq<char>,
    needle: Seq<char>,
    after: Seq<char>,
)
    ensures
        text::contains_text(before + needle + after, needle),
{
    let hay = before + needle + after;
    let i = before.len() as int;
    assert(hay.subrange(i, i + needle.len()) =~= needle);
}

/// What is found in a text stands there between two texts.
pub proof fn what_is_found_stands_in_the_text(hay: Seq<char>, needle: Seq<char>)
    requires
        text::contains_text(hay, needle),
    ensures
        exists|before: Seq<char>, after: Seq<char>| #[trigger] ((before + needle) + after) == hay,
{
    let i = choose|i: int|
        0 <= i <= hay.len() - needle.len() && #[trigger] hay.subrange(i, i + needle.len())
            == needle;
    let before = hay.take(i);
    let after = hay.skip(i + needle.len());
    assert forall|k: int| 0 <= k < needle.len() implies hay[i + k] == needle[k] by {
        assert(hay.subrange(i, i + needle.len())[k] == needle[k]);
    }
    assert((before + needle) + after =~= hay);
}

/// Trimming takes white space from both ends, all of it and nothing else.
pub proof fn trimming_takes_the_white_space_round_a_text(s: Seq<char>)
    ensures
        exists|from: int, to: int|
            {
                &&& 0 <= from <= to <= s.len()
                &&& text::trimmed(s) == #[trigger] s.subrange(from, to)
                &&& forall|i: int| 0 <= i < from ==> text::is_space(#[trigger] s[i])
                &&& forall|i: int| to <= i < s.len() ==> text::is_space(#[trigger] s[i])
            },
        text::trimmed(s).len() > 0 ==> !text::is_space(text::trimmed(s)[0]) && !text::is_space(
            text::trimmed(s).last(),
        ),
{
    let inner = text::trimmed_start(s);
    start_is_trimmed(s);
    end_is_trimmed(inner);
    let from = s.len() - inner.len();
    let to = from + text::trimmed(s).len();
    assert(s.subrange(from, to) =~= inner.take(text::trimmed(s).len() as int));
    assert forall|i: int| to <= i < s.len() implies text::is_space(#[trigger] s[i]) by {
        assert(s[i] == inner[i - from]);
    }
}

/// What is trimmed from the start is white space.
proof fn start_is_trimmed(s: Seq<char>)
    ensures
        text::trimmed_start(s).len() <= s.len(),
        text::trimmed_start(s) == s.skip(s.len() - text::trimmed_start(s).len()),
        forall|i: int|
            0 <= i < s.len() - text::trimmed_start(s).len() ==> text::is_space(#[trigger] s[i]),
        text::trimmed_start(s).len() > 0 ==> !text::is_space(text::trimmed_start(s)[0]),
    decreases s.len(),
{
    if s.len() > 0 && text::is_space(s[0]) {
        let rest = s.drop_first();
        start_is_trimmed(rest);
        let n = s.len() - text::trimmed_start(s).len();
        assert(rest.skip(n - 1) =~= s.skip(n));
        assert forall|i: int| 0 <= i < n implies text::is_space(#[trigger] s[i]) by {
            if i > 0 {
                assert(rest[i - 1] == s[i]);
            }
        }
    } else {
        assert(s.skip(0) =~= s);
    }
}

/// What is trimmed from the end is white space.
proof fn end_is_trimmed(s: Seq<char>)
    ensures
        text::trimmed_end(s).len() <= s.len(),
        text::trimmed_end(s) == s.take(text::trimmed_end(s).len() as int),
        forall|i: int|
            text::trimmed_end(s).len() <= i < s.len() ==> text::is_space(#[trigger] s[i]),
        text::trimmed_end(s).len() > 0 ==> !text::is_space(text::trimmed_end(s).last()),
    decreases s.len(),
{
    if s.len() > 0 && text::is_space(s.last()) {
        let rest = s.drop_last();
        end_is_trimmed(rest);
        let n = text::trimmed_end(s).len() as int;
        assert(rest.take(n) =~= s.take(n));
        assert forall|i: int| n <= i < s.len() implies text::is_space(#[trigger] s[i]) by {
            if i < rest.len() {
                assert(rest[i] == s[i]);
            }
        }
    } else {
        assert(s.take(s.len() as int) =~= s);
    }
}

/// The number that decimal digits stand for.
pub open spec fn number_of(digits: Seq<char>) -> int
    decreases digits.len(),
{
    if digits.len() == 0 {
        0
    } else {
        10 * number_of(digits.drop_last()) + (digits.last() as u32 as int - 48)
    }
}

/// A number is written in decimal digits that stand for it, without a leading zero.
pub proof fn decimal_stands_for_its_number(n: nat)
    ensures
        number_of(text::decimal(n)) == n,
        text::decimal(n).len() > 0,
        forall|i: int|
            0 <= i < text::decimal(n).len() ==> 48 <= (#[trigger] text::decimal(n)[i]) as u32
                <= 57,
        n > 0 ==> text::decimal(n)[0] as u32 != 48,
    decreases n,
{
    let digits = text::decimal(n);
    if n < 10 {
        assert(digits.drop_last() =~= Seq::<char>::empty());
        assert(number_of(digits.drop_last()) == 0);
        assert(digits.last() as u32 == 48 + n);
    } else {
        decimal_stands_for_its_number(n / 10);
        assert(digits.drop_last() =~= text::decimal(n / 10));
        assert(digits.last() as u32 == 48 + n % 10);
    }
}

/// White space between the parts of a JSON text is one of four characters.
pub proof fn json_space_is_one_of_four(c: char)
    ensures
        parts::is_json_space(c) <==> (c == ' ' || c == '\t' || c == '\n' || c == '\r'),
{
}

/// What is left of a text without the white space before it is its end, and starts with none;
/// what is gone was white space.
pub proof fn space_before_a_text_is_skipped(s: Seq<char>)
    ensures
        parts::unspaced(s).len() <= s.len(),
        parts::unspaced(s) == s.skip(s.len() - parts::unspaced(s).len()),
        forall|i: int|
            0 <= i < s.len() - parts::unspaced(s).len() ==> parts::is_json_space(#[trigger] s[i]),
        parts::unspaced(s).len() > 0 ==> !parts::is_json_space(parts::unspaced(s)[0]),
    decreases s.len(),
{
    if s.len() > 0 && parts::is_json_space(s[0]) {
        space_before_a_text_is_skipped(s.skip(1));
        let n = s.len() - parts::unspaced(s).len();
        assert(s.skip(1).skip(n - 1) =~= s.skip(n));
        assert forall|i: int| 0 <= i < n implies parts::is_json_space(#[trigger] s[i]) by {
            if i > 0 {
                assert(s.skip(1)[i - 1] == s[i]);
            }
        }
    } else {
        assert(s.skip(0) =~= s);
    }
}

/// A sign that comes next is found behind any white space, and no other is.
pub proof fn the_next_sign_is_found(space: Seq<char>, sign: char, rest: Seq<char>, other: char)
    requires
        forall|i: int| 0 <= i < space.len() ==> parts::is_json_space(#[trigger] space[i]),
        !parts::is_json_space(sign),
        other != sign,
    ensures
        parts::behind(space + seq![sign] + rest, sign) == Some(rest),
        parts::behind(space + seq![sign] + rest, other) is None,
{
    let s = space + seq![sign] + rest;
    leading_space_is_skipped(space, seq![sign] + rest);
    assert(s =~= space + (seq![sign] + rest));
    assert((seq![sign] + rest).skip(1) =~= rest);
}

/// Leading white space is skipped.
proof fn leading_space_is_skipped(space: Seq<char>, rest: Seq<char>)
    requires
        forall|i: int| 0 <= i < space.len() ==> parts::is_json_space(#[trigger] space[i]),
        rest.len() > 0,
        !parts::is_json_space(rest[0]),
    ensures
        parts::unspaced(space + rest) == rest,
    decreases space.len(),
{
    if space.len() > 0 {
        let s = space + rest;
        assert(s.skip(1) =~= space.skip(1) + rest);
        assert(s[0] == space[0]);
        assert forall|i: int| 0 <= i < space.skip(1).len() implies parts::is_json_space(
            #[trigger] space.skip(1)[i],
        ) by {
            assert(space.skip(1)[i] == space[i + 1]);
        }
        leading_space_is_skipped(space.skip(1), rest);
    } else {
        assert(space + rest =~= rest);
    }
}

} // verus!
