//! The members of an object, and the items of an array, as their text has them: every one, also
//! where a name stands twice, and each with the text of its value.
use crate::json;
use crate::json::{Json, JsonView};
use crate::text::{chars_of, same_text};
use serde::de::IgnoredAny;
use vstd::prelude::*;
use vstd::string::*;

verus! {

/// How many characters of a text its first JSON value takes, with the white space before it, as
/// `serde_json` finds the end of a value that it skips; nothing where no value stands there.
pub uninterp spec fn value_length(text: Seq<char>) -> Option<nat>;

/// Reads one value with the iterator of `serde_json::Deserializer::from_str(..).into_iter()` over
/// `serde::de::IgnoredAny`, which skips a value, and asks its `byte_offset`. The contract names
/// how far that comes, which depends on the text alone; it is past the start and within the text.
#[verifier::external_body]
fn skip_value(text: &str) -> (length: Option<usize>)
    ensures
        match length {
            Some(length) => value_length(text@) == Some(length as nat) && 0 < length
                <= text@.len(),
            None => value_length(text@) is None,
        },
{
    let mut values = serde_json::Deserializer::from_str(text).into_iter::<IgnoredAny>();
    values.next()?.ok()?;
    Some(text[..values.byte_offset()].chars().count())
}

/// The characters that may stand between the parts of a JSON text.
pub open spec fn is_json_space(c: char) -> bool {
    c == ' ' || c == '\n' || c == '\t' || c == '\r'
}

/// A text without the white space it starts with.
pub open spec fn unspaced(text: Seq<char>) -> Seq<char>
    decreases text.len(),
{
    if text.len() > 0 && is_json_space(text[0]) {
        unspaced(text.skip(1))
    } else {
        text
    }
}

/// What stands behind a sign, where that sign comes next.
pub open spec fn behind(text: Seq<char>, sign: char) -> Option<Seq<char>> {
    let next = unspaced(text);
    if next.len() > 0 && next[0] == sign {
        Some(next.skip(1))
    } else {
        None
    }
}

/// The first value of a text, and what stands behind it.
pub open spec fn first_value(text: Seq<char>) -> Option<(Seq<char>, Seq<char>)> {
    match value_length(text) {
        Some(length) => if 0 < length <= text.len() {
            Some((text.take(length as int), text.skip(length as int)))
        } else {
            None
        },
        None => None,
    }
}

/// The first member of an object's text, or the first item of an array's, and what stands behind
/// it. A part is a name and the text of a value; an item has no name.
pub open spec fn first_part(text: Seq<char>, named: bool) -> Option<
    ((Seq<char>, Seq<char>), Seq<char>),
> {
    match first_value(text) {
        Some((first, rest)) => if named {
            match (json::required_text(json::json_parse(first)), behind(rest, ':')) {
                (Some(name), Some(rest)) => match first_value(rest) {
                    Some((value, rest)) => Some(((name, value), rest)),
                    None => None,
                },
                _ => None,
            }
        } else {
            Some(((Seq::empty(), first), rest))
        },
        None => None,
    }
}

/// The sign that opens an object, or an array.
pub open spec fn opening(named: bool) -> char {
    if named {
        '{'
    } else {
        '['
    }
}

/// The sign that closes an object, or an array.
pub open spec fn closing(named: bool) -> char {
    if named {
        '}'
    } else {
        ']'
    }
}

/// The parts from here to the sign that closes them, at least one, and what stands behind that.
pub open spec fn parts_from(text: Seq<char>, named: bool) -> Option<
    (Seq<(Seq<char>, Seq<char>)>, Seq<char>),
>
    decreases text.len(),
{
    match first_part(text, named) {
        Some((part, rest)) => match behind(rest, ',') {
            Some(more) => {
                proof {
                    part_is_within(text, named);
                    behind_is_shorter(rest, ',');
                }
                match parts_from(more, named) {
                    Some((parts, end)) => Some((Seq::empty().push(part) + parts, end)),
                    None => None,
                }
            },
            None => match behind(rest, closing(named)) {
                Some(end) => Some((Seq::empty().push(part), end)),
                None => None,
            },
        },
        None => None,
    }
}

/// The members of an object's text (`named`), or the items of an array's; nothing where the text
/// is no such thing.
pub open spec fn parts(text: Seq<char>, named: bool) -> Option<Seq<(Seq<char>, Seq<char>)>> {
    match behind(text, opening(named)) {
        Some(inner) => {
            let found = match behind(inner, closing(named)) {
                Some(end) => Some((Seq::empty(), end)),
                None => parts_from(inner, named),
            };
            match found {
                Some((parts, end)) => if unspaced(end).len() == 0 {
                    Some(parts)
                } else {
                    None
                },
                None => None,
            }
        },
        None => None,
    }
}

/// The text is read as the value, and falls into the value's own parts, each of them likewise.
pub open spec fn is_written_as(text: Seq<char>, value: JsonView) -> bool
    decreases value,
{
    &&& json::json_parse(text) == Some(value)
    &&& match value {
        JsonView::Object(members) => {
            &&& parts(text, true) is Some
            &&& parts(text, true)->0.len() == members.len()
            &&& forall|i: int|
                #![trigger members[i]]
                0 <= i < members.len() ==> parts(text, true)->0[i].0 == members[i].0
                    && is_written_as(parts(text, true)->0[i].1, members[i].1)
        },
        JsonView::Array(items) => {
            &&& parts(text, true) is None
            &&& parts(text, false) is Some
            &&& parts(text, false)->0.len() == items.len()
            &&& forall|i: int|
                #![trigger items[i]]
                0 <= i < items.len() ==> is_written_as(parts(text, false)->0[i].1, items[i])
        },
        _ => parts(text, true) is None && parts(text, false) is None,
    }
}

/// A name stands at most once among the parts.
pub open spec fn at_most_once(parts: Seq<(Seq<char>, Seq<char>)>, name: Seq<char>) -> bool {
    forall|i: int, j: int|
        0 <= i < j < parts.len() ==> !(#[trigger] parts[i].0 == name && #[trigger] parts[j].0
            == name)
}

/// The text under a name, the last one of that name.
pub open spec fn text_under(parts: Seq<(Seq<char>, Seq<char>)>, name: Seq<char>) -> Option<
    Seq<char>,
>
    decreases parts.len(),
{
    if parts.len() == 0 {
        None
    } else if parts.last().0 == name {
        Some(parts.last().1)
    } else {
        text_under(parts.drop_last(), name)
    }
}

/// Where the text is an object's, no two of its members have this name.
pub open spec fn names_once(text: Seq<char>, name: Seq<char>) -> bool {
    parts(text, true) matches Some(parts) ==> at_most_once(parts, name)
}

/// A text that is written as an object names each of its members once, where the object does.
pub proof fn written_names_stand_once(text: Seq<char>, value: JsonView, name: Seq<char>)
    requires
        is_written_as(text, value),
        value matches JsonView::Object(members) ==> json::distinct_names(members),
    ensures
        names_once(text, name),
{
    if let JsonView::Object(members) = value {
        let found = parts(text, true)->0;
        assert forall|i: int, j: int| 0 <= i < j < found.len() implies !(#[trigger] found[i].0
            == name && #[trigger] found[j].0 == name) by {
            assert(members[i].0 != members[j].0);
        }
    }
}

/// The text of the last member of an object that has some name is written as that member.
pub proof fn text_under_last_name(
    found: Seq<(Seq<char>, Seq<char>)>,
    members: Seq<(Seq<char>, JsonView)>,
    name: Seq<char>,
)
    requires
        found.len() == members.len(),
        forall|i: int|
            #![trigger members[i]]
            0 <= i < members.len() ==> found[i].0 == members[i].0 && is_written_as(
                found[i].1,
                members[i].1,
            ),
    ensures
        match json::lookup(members, name) {
            Some(value) => text_under(found, name) is Some && is_written_as(
                text_under(found, name)->0,
                value,
            ),
            None => text_under(found, name) is None,
        },
    decreases members.len(),
{
    if members.len() > 0 {
        assert(members[members.len() - 1] == members.last());
        if members.last().0 != name {
            let others = members.drop_last();
            assert forall|i: int| #![trigger others[i]] 0 <= i < others.len() implies
                found.drop_last()[i].0 == others[i].0 && is_written_as(
                found.drop_last()[i].1,
                others[i].1,
            ) by {
                assert(others[i] == members[i]);
            }
            text_under_last_name(found.drop_last(), others, name);
        }
    }
}

/// The text of the field `name` of a structure of `count` fields, the one at `index` where it is
/// written as an array.
pub open spec fn field_text(text: Seq<char>, name: Seq<char>, index: int, count: nat) -> Option<
    Seq<char>,
> {
    match parts(text, true) {
        Some(members) => text_under(members, name),
        None => match parts(text, false) {
            Some(items) => if items.len() == count && 0 <= index < count {
                Some(items[index].1)
            } else {
                None
            },
            None => None,
        },
    }
}

/// A text without white space before it is no longer than with it.
proof fn unspaced_is_no_longer(text: Seq<char>)
    ensures
        unspaced(text).len() <= text.len(),
    decreases text.len(),
{
    if text.len() > 0 && is_json_space(text[0]) {
        unspaced_is_no_longer(text.skip(1));
    }
}

/// What stands behind a sign is shorter than the whole.
pub proof fn behind_is_shorter(text: Seq<char>, sign: char)
    ensures
        behind(text, sign) is Some ==> behind(text, sign)->0.len() < text.len(),
{
    unspaced_is_no_longer(text);
}

/// What stands behind the first part is shorter than the whole.
pub proof fn part_is_within(text: Seq<char>, named: bool)
    ensures
        first_part(text, named) matches Some(read) ==> read.1.len() < text.len(),
{
    if let Some((first, rest)) = first_value(text) {
        behind_is_shorter(rest, ':');
    }
}

/// A string without the white space it starts with.
fn skip_space(text: &str) -> (rest: &str)
    ensures
        rest@ == unspaced(text@),
{
    let chars: Vec<char> = chars_of(text);
    let mut from: usize = 0;
    assert(text@.skip(0) =~= text@);
    while from < chars.len() && (chars[from] == ' ' || chars[from] == '\n' || chars[from] == '\t'
        || chars[from] == '\r')
        invariant
            chars@ == text@,
            from <= chars.len(),
            unspaced(text@) == unspaced(text@.skip(from as int)),
        decreases chars.len() - from,
    {
        assert(text@.skip(from as int).skip(1) =~= text@.skip(from + 1));
        from += 1;
    }
    assert(text@.subrange(from as int, chars@.len() as int) =~= text@.skip(from as int));
    text.substring_char(from, chars.len())
}

/// What stands behind a sign, where that sign comes next.
fn read_sign(text: &str, sign: char) -> (rest: Option<&str>)
    ensures
        match rest {
            Some(rest) => behind(text@, sign) == Some(rest@),
            None => behind(text@, sign) is None,
        },
{
    let next: &str = skip_space(text);
    let length: usize = next.unicode_len();
    if length > 0 && next.get_char(0) == sign {
        assert(next@.subrange(1, length as int) =~= next@.skip(1));
        Some(next.substring_char(1, length))
    } else {
        None
    }
}

/// The first value of a text, and what stands behind it.
fn read_value(text: &str) -> (read: Option<(&str, &str)>)
    ensures
        match read {
            Some((value, rest)) => first_value(text@) == Some((value@, rest@)),
            None => first_value(text@) is None,
        },
{
    match skip_value(text) {
        Some(length) => {
            let value: &str = text.substring_char(0, length);
            let rest: &str = text.substring_char(length, text.unicode_len());
            assert(value@ =~= text@.take(length as int));
            assert(rest@ =~= text@.skip(length as int));
            Some((value, rest))
        },
        None => None,
    }
}

/// The first member of an object's text, or the first item of an array's, and what stands behind
/// it.
fn read_part(text: &str, named: bool) -> (read: Option<((String, String), &str)>)
    ensures
        match read {
            Some((part, rest)) => first_part(text@, named) == Some(((part.0@, part.1@), rest@)),
            None => first_part(text@, named) is None,
        },
{
    match read_value(text) {
        Some((first, rest)) => if named {
            let name: Option<String> = match Json::parse(first) {
                Some(json) => json::read_text(Some(&json)),
                None => None,
            };
            match (name, read_sign(rest, ':')) {
                (Some(name), Some(rest)) => match read_value(rest) {
                    Some((value, rest)) => Some(((name, value.to_owned()), rest)),
                    None => None,
                },
                _ => None,
            }
        } else {
            proof {
                reveal_strlit("");
                assert(""@ =~= Seq::<char>::empty());
            }
            Some((("".to_owned(), first.to_owned()), rest))
        },
        None => None,
    }
}

/// What a list of parts holds.
pub open spec fn parts_view(parts: Seq<(String, String)>) -> Seq<(Seq<char>, Seq<char>)> {
    Seq::new(parts.len(), |i: int| (parts[i].0@, parts[i].1@))
}

/// The parts from here to the sign that closes them, and what stands behind that.
fn read_parts_from(text: &str, named: bool) -> (read: Option<(Vec<(String, String)>, &str)>)
    ensures
        match read {
            Some((parts, end)) => parts_from(text@, named) == Some((parts_view(parts@), end@)),
            None => parts_from(text@, named) is None,
        },
{
    let mut parts: Vec<(String, String)> = Vec::new();
    let mut here: &str = text;
    assert(parts_view(parts@) =~= Seq::empty());
    loop
        invariant
            match parts_from(here@, named) {
                Some((more, end)) => parts_from(text@, named) == Some(
                    (parts_view(parts@) + more, end),
                ),
                None => parts_from(text@, named) is None,
            },
        decreases here@.len(),
    {
        let ghost before = parts_view(parts@);
        let ghost at = here@;
        let (part, rest) = match read_part(here, named) {
            Some(read) => read,
            None => {
                return None;
            },
        };
        let ghost found = (part.0@, part.1@);
        parts.push(part);
        assert(parts_view(parts@) =~= before.push(found));
        match read_sign(rest, ',') {
            Some(more) => {
                proof {
                    part_is_within(at, named);
                    behind_is_shorter(rest@, ',');
                    if let Some((later, end)) = parts_from(more@, named) {
                        assert(before + (Seq::empty().push(found) + later) =~= before.push(found)
                            + later);
                    }
                }
                here = more;
            },
            None => {
                let close: char = if named {
                    '}'
                } else {
                    ']'
                };
                return match read_sign(rest, close) {
                    Some(end) => {
                        assert(before + Seq::empty().push(found) =~= before.push(found));
                        Some((parts, end))
                    },
                    None => None,
                };
            },
        }
    }
}

/// The members of an object's text, or the items of an array's.
pub fn read_parts(text: &str, named: bool) -> (read: Option<Vec<(String, String)>>)
    ensures
        match read {
            Some(found) => parts(text@, named) == Some(parts_view(found@)),
            None => parts(text@, named) is None,
        },
{
    let (open, close) = if named {
        ('{', '}')
    } else {
        ('[', ']')
    };
    let inner: &str = match read_sign(text, open) {
        Some(inner) => inner,
        None => {
            return None;
        },
    };
    let (found, end): (Vec<(String, String)>, &str) = match read_sign(inner, close) {
        Some(end) => {
            let none: Vec<(String, String)> = Vec::new();
            assert(parts_view(none@) =~= Seq::empty());
            (none, end)
        },
        None => match read_parts_from(inner, named) {
            Some(read) => read,
            None => {
                return None;
            },
        },
    };
    if skip_space(end).unicode_len() == 0 {
        Some(found)
    } else {
        None
    }
}

/// What an optional list of parts holds.
pub open spec fn optional_parts_view(parts: Option<Vec<(String, String)>>) -> Option<
    Seq<(Seq<char>, Seq<char>)>,
> {
    match parts {
        Some(parts) => Some(parts_view(parts@)),
        None => None,
    }
}

/// Whether a name stands at most once among the parts.
pub fn stands_at_most_once(found: &Vec<(String, String)>, name: &str) -> (once: bool)
    ensures
        once == at_most_once(parts_view(found@), name@),
{
    let ghost views = parts_view(found@);
    let mut seen: Option<usize> = None;
    let mut i: usize = 0;
    while i < found.len()
        invariant
            i <= found.len(),
            views == parts_view(found@),
            match seen {
                Some(at) => at < i && forall|k: int|
                    0 <= k < i ==> ((#[trigger] views[k]).0 == name@ <==> k == at),
                None => forall|k: int| 0 <= k < i ==> (#[trigger] views[k]).0 != name@,
            },
        decreases found.len() - i,
    {
        assert(views[i as int].0 == found@[i as int].0@);
        if same_text(found[i].0.as_str(), name) {
            if let Some(at) = seen {
                assert(views[at as int].0 == name@ && views[i as int].0 == name@);
                return false;
            }
            seen = Some(i);
        }
        i += 1;
    }
    true
}

/// The text under a name, the last one of that name.
pub fn find_text<'a>(found: &'a Vec<(String, String)>, name: &str) -> (text: Option<&'a str>)
    ensures
        match text {
            Some(text) => text_under(parts_view(found@), name@) == Some(text@),
            None => text_under(parts_view(found@), name@) is None,
        },
{
    let ghost all = parts_view(found@);
    assert(all.take(all.len() as int) =~= all);
    let mut i: usize = found.len();
    while i > 0
        invariant
            i <= found.len(),
            all == parts_view(found@),
            text_under(all, name@) == text_under(all.take(i as int), name@),
        decreases i,
    {
        assert(all.take(i as int).drop_last() =~= all.take(i - 1));
        assert(all.take(i as int).last() == (found@[i - 1].0@, found@[i - 1].1@));
        if same_text(found[i - 1].0.as_str(), name) {
            return Some(found[i - 1].1.as_str());
        }
        i -= 1;
    }
    None
}

} // verus!
