//! JSON values: the tree that messages carry as parameters and results, reading and writing its
//! text, and the members of its objects.
use crate::parts;
use crate::text::same_text;
use serde_json::Value;
use vstd::prelude::*;

verus! {

/// A JSON value. A number is held as an integer where it is one, and otherwise by its text.
#[derive(Debug)]
pub enum Json {
    Null,
    Bool(bool),
    /// An integer from zero up.
    PosInt(u64),
    /// An integer below zero.
    NegInt(i64),
    /// Any other number, as it is written.
    Float(String),
    Str(String),
    Array(Vec<Json>),
    /// The members, in order. Of members with one name the last counts.
    Object(Vec<(String, Json)>),
}

/// What a [`Json`] value holds.
pub enum JsonView {
    Null,
    Bool(bool),
    PosInt(u64),
    NegInt(i64),
    Float(Seq<char>),
    Str(Seq<char>),
    Array(Seq<JsonView>),
    Object(Seq<(Seq<char>, JsonView)>),
}

impl View for Json {
    type V = JsonView;

    open spec fn view(&self) -> JsonView
        decreases self,
    {
        match self {
            Json::Null => JsonView::Null,
            Json::Bool(b) => JsonView::Bool(*b),
            Json::PosInt(n) => JsonView::PosInt(*n),
            Json::NegInt(n) => JsonView::NegInt(*n),
            Json::Float(s) => JsonView::Float(s@),
            Json::Str(s) => JsonView::Str(s@),
            Json::Array(items) => JsonView::Array(
                Seq::new(
                    items@.len(),
                    |i: int|
                        if 0 <= i < items@.len() {
                            items@[i].view()
                        } else {
                            JsonView::Null
                        },
                ),
            ),
            Json::Object(members) => JsonView::Object(
                Seq::new(
                    members@.len(),
                    |i: int|
                        if 0 <= i < members@.len() {
                            (members@[i].0@, members@[i].1.view())
                        } else {
                            (Seq::empty(), JsonView::Null)
                        },
                ),
            ),
        }
    }
}

/// What a list of values holds.
pub open spec fn items_view(items: Seq<Json>) -> Seq<JsonView> {
    Seq::new(items.len(), |i: int| items[i]@)
}

/// What a list of members holds.
pub open spec fn members_view(members: Seq<(String, Json)>) -> Seq<(Seq<char>, JsonView)> {
    Seq::new(members.len(), |i: int| (members[i].0@, members[i].1@))
}

/// What an optional value holds.
pub open spec fn optional_view(json: Option<Json>) -> Option<JsonView> {
    match json {
        Some(json) => Some(json@),
        None => None,
    }
}

/// What an optional borrowed value holds.
pub open spec fn optional_ref_view(json: Option<&Json>) -> Option<JsonView> {
    match json {
        Some(json) => Some(json@),
        None => None,
    }
}

/// The value of the member `name`: the last one of that name.
pub open spec fn lookup(members: Seq<(Seq<char>, JsonView)>, name: Seq<char>) -> Option<JsonView>
    decreases members.len(),
{
    if members.len() == 0 {
        None
    } else if members.last().0 == name {
        Some(members.last().1)
    } else {
        lookup(members.drop_last(), name)
    }
}

/// The members with `value` in place of what stands under `name`.
pub open spec fn replaced(
    members: Seq<(Seq<char>, JsonView)>,
    name: Seq<char>,
    value: JsonView,
) -> Seq<(Seq<char>, JsonView)>
    decreases members.len(),
{
    if members.len() == 0 {
        members
    } else if members.last().0 == name {
        members.drop_last().push((name, value))
    } else {
        replaced(members.drop_last(), name, value).push(members.last())
    }
}

/// The members with `value` under `name`: in place of the value that `name` had, or else at the
/// end.
pub open spec fn with_member(
    members: Seq<(Seq<char>, JsonView)>,
    name: Seq<char>,
    value: JsonView,
) -> Seq<(Seq<char>, JsonView)> {
    if lookup(members, name) is None {
        members.push((name, value))
    } else {
        replaced(members, name, value)
    }
}

/// No name stands twice among the members.
pub open spec fn distinct_names(members: Seq<(Seq<char>, JsonView)>) -> bool {
    forall|i: int, j: int|
        0 <= i < j < members.len() ==> #[trigger] members[i].0 != #[trigger] members[j].0
}

impl JsonView {
    /// The member `name` of an object; nothing else has members.
    pub open spec fn member(self, name: Seq<char>) -> Option<JsonView> {
        match self {
            JsonView::Object(members) => lookup(members, name),
            _ => None,
        }
    }

    /// The text of a string value.
    pub open spec fn text(self) -> Option<Seq<char>> {
        match self {
            JsonView::Str(s) => Some(s),
            _ => None,
        }
    }

    /// The text of the string under `name`.
    pub open spec fn text_member(self, name: Seq<char>) -> Option<Seq<char>> {
        match self.member(name) {
            Some(value) => value.text(),
            None => None,
        }
    }

    /// A structure of `count` fields is written as an object, or as an array of its fields in
    /// order.
    pub open spec fn is_record(self, count: nat) -> bool {
        match self {
            JsonView::Object(_) => true,
            JsonView::Array(items) => items.len() == count,
            _ => false,
        }
    }

    /// The field `name` of a structure of `count` fields, the one at `index` where it is written
    /// as an array.
    pub open spec fn field(self, name: Seq<char>, index: int, count: nat) -> Option<JsonView> {
        match self {
            JsonView::Object(members) => lookup(members, name),
            JsonView::Array(items) => if items.len() == count && 0 <= index < count {
                Some(items[index])
            } else {
                None
            },
            _ => None,
        }
    }

    /// Writing this value as text and reading the text gives the value back, as far as values
    /// nest no deeper than `depth`: no object names a member twice, a negative integer is below
    /// zero, and every other number is written as it is read.
    pub open spec fn survives(self, depth: nat) -> bool
        decreases self,
    {
        match self {
            JsonView::NegInt(n) => n < 0,
            JsonView::Float(s) => json_parse(s) == Some(self),
            JsonView::Array(items) => {
                &&& depth > 0
                &&& forall|i: int|
                    #![trigger items[i]]
                    0 <= i < items.len() ==> items[i].survives((depth - 1) as nat)
            },
            JsonView::Object(members) => {
                &&& depth > 0
                &&& distinct_names(members)
                &&& forall|i: int|
                    #![trigger members[i]]
                    0 <= i < members.len() ==> members[i].1.survives((depth - 1) as nat)
            },
            _ => true,
        }
    }
}

/// The text that a field must hold.
pub open spec fn required_text(field: Option<JsonView>) -> Option<Seq<char>> {
    match field {
        Some(JsonView::Str(s)) => Some(s),
        _ => None,
    }
}

/// The text that a field may hold: absent and null are no text, anything else but a string is
/// wrong.
pub open spec fn optional_text(field: Option<JsonView>) -> Option<Option<Seq<char>>> {
    match field {
        None | Some(JsonView::Null) => Some(None),
        Some(JsonView::Str(s)) => Some(Some(s)),
        _ => None,
    }
}

/// The value that a field may hold: absent and null are none.
pub open spec fn optional_value(field: Option<JsonView>) -> Option<JsonView> {
    match field {
        None | Some(JsonView::Null) => None,
        Some(value) => Some(value),
    }
}

/// The truth value that a field must hold.
pub open spec fn required_bool(field: Option<JsonView>) -> Option<bool> {
    match field {
        Some(JsonView::Bool(b)) => Some(b),
        _ => None,
    }
}

/// An optional value, with null for none.
pub open spec fn or_null(value: Option<JsonView>) -> JsonView {
    match value {
        Some(value) => value,
        None => JsonView::Null,
    }
}

/// An optional text, with null for none.
pub open spec fn text_or_null(text: Option<Seq<char>>) -> JsonView {
    match text {
        Some(s) => JsonView::Str(s),
        None => JsonView::Null,
    }
}

/// What an optional string holds.
pub open spec fn text_view(text: Option<String>) -> Option<Seq<char>> {
    match text {
        Some(s) => Some(s@),
        None => None,
    }
}

/// The text has no line end in it.
pub open spec fn on_one_line(text: Seq<char>) -> bool {
    forall|i: int| 0 <= i < text.len() ==> #[trigger] text[i] != '\n'
}

/// How deep values may nest in a text that is read.
pub const MAX_DEPTH: u8 = 127;

/// What `serde_json::from_str` reads from a text as a `serde_json::Value`; nothing where it
/// fails.
pub uninterp spec fn json_parse(text: Seq<char>) -> Option<JsonView>;

/// How `serde_json` writes a value in its compact form; nothing where a number's text is not one
/// that it accepts.
pub uninterp spec fn json_text(value: JsonView) -> Option<Seq<char>>;

/// A `serde_json::Value`, which nothing looks into but the two conversions below.
#[verifier::external_type_specification]
#[verifier::external_body]
pub struct ExValue(Value);

/// A `serde_json::Value` as a [`Json`], variant by variant. Nothing is stated of the result: the
/// reading as a whole is named by [`json_parse`].
#[verifier::external_body]
fn from_value(value: Value) -> Json {
    match value {
        Value::Null => Json::Null,
        Value::Bool(b) => Json::Bool(b),
        Value::Number(n) => match (n.as_u64(), n.as_i64()) {
            (Some(u), _) => Json::PosInt(u),
            (None, Some(i)) => Json::NegInt(i),
            (None, None) => Json::Float(n.to_string()),
        },
        Value::String(s) => Json::Str(s),
        Value::Array(a) => Json::Array(a.into_iter().map(from_value).collect()),
        Value::Object(m) => {
            Json::Object(m.into_iter().map(|(k, v)| (k, from_value(v))).collect())
        },
    }
}

/// A [`Json`] as a `serde_json::Value`, variant by variant; nothing where a number's text is not
/// one that `serde_json::Number` reads. Nothing is stated of the result: the writing as a whole
/// is named by [`json_text`].
#[verifier::external_body]
fn to_value(json: &Json) -> Option<Value> {
    Some(match json {
        Json::Null => Value::Null,
        Json::Bool(b) => Value::Bool(*b),
        Json::PosInt(n) => Value::from(*n),
        Json::NegInt(n) => Value::from(*n),
        Json::Float(s) => Value::Number(s.parse().ok()?),
        Json::Str(s) => Value::String(s.clone()),
        Json::Array(a) => Value::Array(a.iter().map(to_value).collect::<Option<_>>()?),
        Json::Object(m) => {
            let members = m.iter().map(|(k, v)| Some((k.clone(), to_value(v)?)));
            Value::Object(members.collect::<Option<_>>()?)
        },
    })
}

/// Reads a JSON text with `serde_json::from_str`. The contract only names what comes back: it
/// depends on the text alone.
#[verifier::external_body]
fn parse_json(text: &str) -> (json: Option<Json>)
    ensures
        optional_view(json) == json_parse(text@),
{
    serde_json::from_str(text).ok().map(from_value)
}

/// Writes a value as compact JSON text with `serde_json::to_string`. The contract names the text,
/// and claims four things of it: it stands on one line; an object is written between braces; a
/// value that survives is written; and that text falls into the texts of the value's own parts,
/// of which each, as the whole, is read by `serde_json::from_str` as what was written (`serde_json`
/// keeps the order of members, and reads 127 levels of nesting).
#[verifier::external_body]
fn render_json(json: &Json) -> (text: Option<String>)
    ensures
        match text {
            Some(text) => json_text(json@) == Some(text@),
            None => json_text(json@) is None,
        },
        text is Some ==> on_one_line(text->0@),
        text is Some && json@ is Object ==> text->0@.len() >= 2 && text->0@[0] == '{'
            && text->0@.last() == '}',
        json@.survives(MAX_DEPTH as nat) ==> text is Some && parts::is_written_as(
            text->0@,
            json@,
        ),
{
    serde_json::to_string(&to_value(json)?).ok()
}

/// An object's view is made of its members' views.
pub proof fn object_view(members: Vec<(String, Json)>)
    ensures
        Json::Object(members)@ == JsonView::Object(members_view(members@)),
{
    reveal_with_fuel(<Json as View>::view, 2);
    assert(Json::Object(members)@->Object_0 =~= members_view(members@));
}

/// An array's view is made of its items' views.
pub proof fn array_view(items: Vec<Json>)
    ensures
        Json::Array(items)@ == JsonView::Array(items_view(items@)),
{
    reveal_with_fuel(<Json as View>::view, 2);
    assert(Json::Array(items)@->Array_0 =~= items_view(items@));
}

/// What is found after a member is added at the end.
pub broadcast proof fn lookup_push(
    members: Seq<(Seq<char>, JsonView)>,
    member: (Seq<char>, JsonView),
    name: Seq<char>,
)
    ensures
        #[trigger] lookup(members.push(member), name) == if member.0 == name {
            Some(member.1)
        } else {
            lookup(members, name)
        },
{
    assert(members.push(member).drop_last() =~= members);
}

/// Replacing a member changes what is found under its name, and nothing else.
proof fn replaced_changes_one_name(
    members: Seq<(Seq<char>, JsonView)>,
    name: Seq<char>,
    value: JsonView,
    other: Seq<char>,
)
    requires
        lookup(members, name) is Some,
    ensures
        lookup(replaced(members, name, value), other) == if other == name {
            Some(value)
        } else {
            lookup(members, other)
        },
    decreases members.len(),
{
    let set = replaced(members, name, value);
    if members.last().0 == name {
        assert(set.drop_last() =~= members.drop_last());
    } else {
        replaced_changes_one_name(members.drop_last(), name, value, other);
        assert(set.drop_last() =~= replaced(members.drop_last(), name, value));
    }
}

/// Setting a member changes what is found under its name, and nothing else.
pub proof fn with_member_sets_one_name(
    members: Seq<(Seq<char>, JsonView)>,
    name: Seq<char>,
    value: JsonView,
    other: Seq<char>,
)
    ensures
        lookup(with_member(members, name, value), other) == if other == name {
            Some(value)
        } else {
            lookup(members, other)
        },
{
    if lookup(members, name) is None {
        assert(members.push((name, value)).drop_last() =~= members);
    } else {
        replaced_changes_one_name(members, name, value, other);
    }
}

impl Clone for Json {
    fn clone(&self) -> (copy: Json)
        ensures
            copy@ == self@,
        decreases self,
    {
        match self {
            Json::Null => Json::Null,
            Json::Bool(b) => Json::Bool(*b),
            Json::PosInt(n) => Json::PosInt(*n),
            Json::NegInt(n) => Json::NegInt(*n),
            Json::Float(s) => Json::Float(s.clone()),
            Json::Str(s) => Json::Str(s.clone()),
            Json::Array(items) => {
                let mut copies: Vec<Json> = Vec::new();
                let mut i: usize = 0;
                while i < items.len()
                    invariant
                        i <= items.len(),
                        copies.len() == i,
                        forall|k: int| 0 <= k < i ==> copies@[k]@ == items@[k]@,
                        self matches Json::Array(v) && v == items,
                    decreases items.len() - i,
                {
                    copies.push(items[i].clone());
                    i += 1;
                }
                let copy: Json = Json::Array(copies);
                assert(copy@->Array_0 =~= self@->Array_0);
                copy
            },
            Json::Object(members) => {
                let mut copies: Vec<(String, Json)> = Vec::new();
                let mut i: usize = 0;
                while i < members.len()
                    invariant
                        i <= members.len(),
                        copies.len() == i,
                        forall|k: int|
                            0 <= k < i ==> copies@[k].0@ == members@[k].0@ && copies@[k].1@
                                == members@[k].1@,
                        self matches Json::Object(v) && v == members,
                    decreases members.len() - i,
                {
                    copies.push((members[i].0.clone(), members[i].1.clone()));
                    i += 1;
                }
                let copy: Json = Json::Object(copies);
                assert(copy@->Object_0 =~= self@->Object_0);
                copy
            },
        }
    }
}

impl Json {
    /// The value that a text holds.
    pub fn parse(text: &str) -> (json: Option<Json>)
        ensures
            optional_view(json) == json_parse(text@),
    {
        parse_json(text)
    }

    /// The value as text, on one line; nothing where a number in it is none. Reading the text
    /// gives the value back, and its parts the value's parts, as far as the value survives that.
    pub fn render(&self) -> (text: Option<String>)
        ensures
            text_view(text) == json_text(self@),
            text is Some ==> on_one_line(text->0@),
            text is Some && self@ is Object ==> text->0@.len() >= 2 && text->0@[0] == '{'
                && text->0@.last() == '}',
            self@.survives(MAX_DEPTH as nat) ==> text is Some && parts::is_written_as(
                text->0@,
                self@,
            ),
    {
        render_json(self)
    }

    /// A string value.
    pub fn string(s: &str) -> (json: Json)
        ensures
            json@ == JsonView::Str(s@),
    {
        Json::Str(s.to_owned())
    }

    /// The member `name` of an object.
    pub fn get(&self, name: &str) -> (value: Option<&Json>)
        ensures
            optional_ref_view(value) == self@.member(name@),
    {
        match self {
            Json::Object(members) => {
                proof {
                    object_view(*members);
                }
                let ghost all = members_view(members@);
                assert(all.take(all.len() as int) =~= all);
                let mut i: usize = members.len();
                while i > 0
                    invariant
                        i <= members.len(),
                        all == members_view(members@),
                        self@.member(name@) == lookup(all, name@),
                        lookup(all, name@) == lookup(all.take(i as int), name@),
                    decreases i,
                {
                    assert(all.take(i as int).drop_last() =~= all.take(i - 1));
                    assert(all.take(i as int).last() == (members@[i - 1].0@, members@[i - 1].1@));
                    if same_text(members[i - 1].0.as_str(), name) {
                        return Some(&members[i - 1].1);
                    }
                    i -= 1;
                }
                None
            },
            _ => None,
        }
    }

    /// Whether this is how a structure of `count` fields is written.
    pub fn is_record(&self, count: usize) -> (yes: bool)
        ensures
            yes == self@.is_record(count as nat),
    {
        match self {
            Json::Object(_) => true,
            Json::Array(items) => {
                proof {
                    array_view(*items);
                }
                items.len() == count
            },
            _ => false,
        }
    }

    /// The field `name` of a structure of `count` fields, the one at `index` where it is written
    /// as an array.
    pub fn field(&self, name: &str, index: usize, count: usize) -> (value: Option<&Json>)
        ensures
            optional_ref_view(value) == self@.field(name@, index as int, count as nat),
    {
        match self {
            Json::Array(items) => {
                proof {
                    array_view(*items);
                }
                if items.len() == count && index < count {
                    Some(&items[index])
                } else {
                    None
                }
            },
            _ => self.get(name),
        }
    }

    /// The text of a string value.
    pub fn as_str(&self) -> (text: Option<&str>)
        ensures
            match text {
                Some(text) => self@.text() == Some(text@),
                None => self@.text() is None,
            },
    {
        match self {
            Json::Str(s) => Some(s.as_str()),
            _ => None,
        }
    }

    /// The text of the string under `name`.
    pub fn get_str(&self, name: &str) -> (text: Option<&str>)
        ensures
            match text {
                Some(text) => self@.text_member(name@) == Some(text@),
                None => self@.text_member(name@) is None,
            },
    {
        match self.get(name) {
            Some(value) => value.as_str(),
            None => None,
        }
    }
}

/// Reads the text that a field must hold.
pub fn read_text(field: Option<&Json>) -> (text: Option<String>)
    ensures
        text_view(text) == required_text(optional_ref_view(field)),
{
    match field {
        Some(Json::Str(s)) => Some(s.clone()),
        _ => None,
    }
}

/// Reads the text that a field may hold.
pub fn read_optional_text(field: Option<&Json>) -> (text: Option<Option<String>>)
    ensures
        match text {
            Some(text) => optional_text(optional_ref_view(field)) == Some(text_view(text)),
            None => optional_text(optional_ref_view(field)) is None,
        },
{
    match field {
        None => Some(None),
        Some(Json::Null) => Some(None),
        Some(Json::Str(s)) => Some(Some(s.clone())),
        _ => None,
    }
}

/// Reads the value that a field may hold.
pub fn read_optional_value(field: Option<&Json>) -> (value: Option<Json>)
    ensures
        optional_view(value) == optional_value(optional_ref_view(field)),
{
    match field {
        None => None,
        Some(Json::Null) => None,
        Some(value) => Some(value.clone()),
    }
}

/// Reads the truth value that a field must hold.
pub fn read_bool(field: Option<&Json>) -> (value: Option<bool>)
    ensures
        value == required_bool(optional_ref_view(field)),
{
    match field {
        Some(Json::Bool(b)) => Some(*b),
        _ => None,
    }
}

/// An optional value, with null for none.
pub fn write_optional_value(value: &Option<Json>) -> (json: Json)
    ensures
        json@ == or_null(optional_view(*value)),
{
    match value {
        Some(value) => value.clone(),
        None => Json::Null,
    }
}

/// An optional string, with null for none.
pub fn write_optional_text(text: &Option<String>) -> (json: Json)
    ensures
        json@ == text_or_null(text_view(*text)),
{
    match text {
        Some(text) => Json::Str(text.clone()),
        None => Json::Null,
    }
}

/// An object of the given members.
pub fn object(members: Vec<(String, Json)>) -> (json: Json)
    ensures
        json@ == JsonView::Object(members_view(members@)),
{
    proof {
        object_view(members);
    }
    Json::Object(members)
}

/// Adds a member at the end.
pub fn push_member(members: &mut Vec<(String, Json)>, name: &str, value: Json)
    ensures
        members_view(final(members)@) == members_view(old(members)@).push((name@, value@)),
{
    members.push((name.to_owned(), value));
    assert(members_view(members@) =~= members_view(old(members)@).push((name@, value@)));
}

/// Sets a member: in place of the value that the name had, or else at the end.
pub fn set_member(members: &mut Vec<(String, Json)>, name: &str, value: Json)
    ensures
        members_view(final(members)@) == with_member(members_view(old(members)@), name@, value@),
{
    let ghost all = members_view(members@);
    assert(all.take(all.len() as int) =~= all);
    assert(replaced(all, name@, value@) + all.skip(all.len() as int) =~= replaced(
        all,
        name@,
        value@,
    ));
    let mut i: usize = members.len();
    while i > 0
        invariant
            i <= members.len(),
            members@ == old(members)@,
            all == members_view(members@),
            lookup(all, name@) == lookup(all.take(i as int), name@),
            replaced(all, name@, value@) == replaced(all.take(i as int), name@, value@) + all.skip(
                i as int,
            ),
        decreases i,
    {
        let ghost head = all.take(i as int);
        assert(head.drop_last() =~= all.take(i - 1));
        assert(head.last() == (members@[i - 1].0@, members@[i - 1].1@));
        if same_text(members[i - 1].0.as_str(), name) {
            members.set(i - 1, (name.to_owned(), value));
            assert(members_view(members@) =~= replaced(all, name@, value@));
            return ;
        }
        assert(replaced(head.drop_last(), name@, value@).push(head.last()) + all.skip(i as int)
            =~= replaced(head.drop_last(), name@, value@) + all.skip(i - 1));
        i -= 1;
    }
    push_member(members, name, value);
}

} // verus!
