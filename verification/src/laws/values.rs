//! What holds of JSON values, and of errors.
use crate::error::{McpError, McpErrorView};
use crate::json;
use crate::json::{Json, JsonView};
use vstd::prelude::*;

verus! {

impl JsonView {
    /// The value is an object with so many members.
    pub open spec fn is_object_of(self, count: nat) -> bool {
        self matches JsonView::Object(members) && members.len() == count
    }
}

/// What is found under a name is the value of the last member of that name; nothing is found
/// exactly where no member has the name.
pub proof fn the_last_member_of_a_name_is_found(
    members: Seq<(Seq<char>, JsonView)>,
    name: Seq<char>,
)
    ensures
        match json::lookup(members, name) {
            Some(value) => exists|i: int|
                {
                    &&& 0 <= i < members.len()
                    &&& #[trigger] members[i] == (name, value)
                    &&& forall|j: int| i < j < members.len() ==> (#[trigger] members[j]).0 != name
                },
            None => forall|i: int| 0 <= i < members.len() ==> (#[trigger] members[i]).0 != name,
        },
    decreases members.len(),
{
    if members.len() > 0 {
        let others = members.drop_last();
        let last = members.len() - 1;
        if members.last().0 == name {
            assert(members[last] == (name, members.last().1));
        } else {
            the_last_member_of_a_name_is_found(others, name);
            if let Some(value) = json::lookup(others, name) {
                let i = choose|i: int|
                    {
                        &&& 0 <= i < others.len()
                        &&& #[trigger] others[i] == (name, value)
                        &&& forall|j: int|
                            i < j < others.len() ==> (#[trigger] others[j]).0 != name
                    };
                assert(members[i] == (name, value));
                assert forall|j: int| i < j < members.len() implies (#[trigger] members[j]).0
                    != name by {
                    if j < last {
                        assert(others[j] == members[j]);
                    }
                }
            } else {
                assert forall|i: int| 0 <= i < members.len() implies (#[trigger] members[i]).0
                    != name by {
                    if i < last {
                        assert(others[i] == members[i]);
                    }
                }
            }
        }
    }
}

/// Setting a member leaves every member of another name where it stands, and adds one at the end
/// exactly where there was none of the name.
pub proof fn setting_a_member_moves_no_other(
    members: Seq<(Seq<char>, JsonView)>,
    name: Seq<char>,
    value: JsonView,
)
    ensures
        ({
            let set = json::with_member(members, name, value);
            &&& json::lookup(members, name) is None ==> set == members.push((name, value))
            &&& json::lookup(members, name) is Some ==> set.len() == members.len()
            &&& json::lookup(set, name) == Some(value)
            &&& forall|i: int|
                0 <= i < members.len() && (#[trigger] members[i]).0 != name ==> set[i]
                    == members[i]
            &&& forall|i: int|
                0 <= i < members.len() && (#[trigger] members[i]).0 == name ==> set[i].0 == name
        }),
{
    json::with_member_sets_one_name(members, name, value, name);
    if json::lookup(members, name) is Some {
        replacing_moves_nothing(members, name, value);
    } else {
        the_last_member_of_a_name_is_found(members, name);
    }
}

/// Replacing a member moves nothing.
proof fn replacing_moves_nothing(
    members: Seq<(Seq<char>, JsonView)>,
    name: Seq<char>,
    value: JsonView,
)
    ensures
        json::replaced(members, name, value).len() == members.len(),
        forall|i: int|
            0 <= i < members.len() ==> {
                let set = json::replaced(members, name, value);
                &&& (#[trigger] members[i]).0 != name ==> set[i] == members[i]
                &&& members[i].0 == name ==> set[i].0 == name
            },
    decreases members.len(),
{
    if members.len() > 0 && members.last().0 != name {
        replacing_moves_nothing(members.drop_last(), name, value);
        assert forall|i: int| 0 <= i < members.len() implies {
            let set = json::replaced(members, name, value);
            &&& (#[trigger] members[i]).0 != name ==> set[i] == members[i]
            &&& members[i].0 == name ==> set[i].0 == name
        } by {
            if i < members.len() - 1 {
                assert(members.drop_last()[i] == members[i]);
            }
        }
    }
}

/// Members and texts are those of an object and of a string; nothing else has any.
pub proof fn members_and_texts_of_values(
    value: JsonView,
    members: Seq<(Seq<char>, JsonView)>,
    text: Seq<char>,
    name: Seq<char>,
)
    ensures
        JsonView::Object(members).member(name) == json::lookup(members, name),
        !(value is Object) ==> value.member(name) is None,
        JsonView::Str(text).text() == Some(text),
        !(value is Str) ==> value.text() is None,
        value.member(name) == Some(JsonView::Str(text)) ==> value.text_member(name) == Some(text),
        value.text_member(name) == Some(text) ==> value.member(name) == Some(JsonView::Str(text)),
{
}

/// A structure's field is the member of that name where the structure is an object, and the item
/// at its place where it is an array of just as many items; nothing else has fields.
pub proof fn fields_of_structures(
    value: JsonView,
    members: Seq<(Seq<char>, JsonView)>,
    items: Seq<JsonView>,
    name: Seq<char>,
    index: int,
    count: nat,
)
    requires
        0 <= index < count,
    ensures
        JsonView::Object(members).is_record(count),
        JsonView::Object(members).field(name, index, count) == json::lookup(members, name),
        JsonView::Array(items).is_record(count) == (items.len() == count),
        items.len() == count ==> JsonView::Array(items).field(name, index, count) == Some(
            items[index],
        ),
        items.len() != count ==> JsonView::Array(items).field(name, index, count) is None,
        !(value is Object) && !(value is Array) ==> !value.is_record(count) && value.field(
            name,
            index,
            count,
        ) is None,
{
}

/// What a field must, or may, hold.
pub proof fn what_fields_hold(field: Option<JsonView>, text: Seq<char>, flag: bool)
    ensures
        json::required_text(Some(JsonView::Str(text))) == Some(text),
        json::required_text(field) is Some ==> (field matches Some(value) && value is Str),
        json::required_bool(Some(JsonView::Bool(flag))) == Some(flag),
        json::required_bool(field) is Some ==> (field matches Some(value) && value is Bool),
        json::optional_text(Some(JsonView::Str(text))) == Some(Some(text)),
        json::optional_text(Some(JsonView::Null)) == Some(None::<Seq<char>>),
        json::optional_text(None) == Some(None::<Seq<char>>),
        json::optional_text(field) is None <==> (field matches Some(value) && !(value is Str)
            && !(value is Null)),
        json::optional_value(Some(JsonView::Null)) is None,
        json::optional_value(None) is None,
        field is Some && !(field->0 is Null) ==> json::optional_value(field) == field,
        json::or_null(None) == JsonView::Null,
        json::or_null(field) == if field is Some {
            field->0
        } else {
            JsonView::Null
        },
        json::text_or_null(Some(text)) == JsonView::Str(text),
        json::text_or_null(None) == JsonView::Null,
{
}

/// The view of a value holds everything that the value holds.
pub proof fn views_of_values_hold_all(
    flag: bool,
    natural: u64,
    integer: i64,
    text: String,
    items: Vec<Json>,
    members: Vec<(String, Json)>,
)
    ensures
        Json::Null@ == JsonView::Null,
        Json::Bool(flag)@ == JsonView::Bool(flag),
        Json::PosInt(natural)@ == JsonView::PosInt(natural),
        Json::NegInt(integer)@ == JsonView::NegInt(integer),
        Json::Float(text)@ == JsonView::Float(text@),
        Json::Str(text)@ == JsonView::Str(text@),
        Json::Array(items)@ is Array,
        Json::Array(items)@->Array_0.len() == items@.len(),
        forall|i: int|
            0 <= i < items@.len() ==> Json::Array(items)@->Array_0[i] == (#[trigger] items@[i])@,
        Json::Object(members)@ is Object,
        Json::Object(members)@->Object_0.len() == members@.len(),
        forall|i: int|
            0 <= i < members@.len() ==> Json::Object(members)@->Object_0[i] == (
                (#[trigger] members@[i]).0@,
                members@[i].1@,
            ),
{
    json::object_view(members);
    json::array_view(items);
}

/// The views of optional values and texts, and of lists of them, hold all of them.
pub proof fn views_of_parts_hold_all(
    value: Json,
    text: String,
    items: Seq<Json>,
    members: Seq<(String, Json)>,
    i: int,
)
    ensures
        json::optional_view(Some(value)) == Some(value@),
        json::optional_view(None) is None,
        json::optional_ref_view(Some(&value)) == Some(value@),
        json::optional_ref_view(None) is None,
        json::text_view(Some(text)) == Some(text@),
        json::text_view(None) is None,
        json::items_view(items).len() == items.len(),
        0 <= i < items.len() ==> json::items_view(items)[i] == items[i]@,
        json::members_view(members).len() == members.len(),
        0 <= i < members.len() ==> json::members_view(members)[i] == (
            members[i].0@,
            members[i].1@,
        ),
{
}

/// Which values survive being written and read: the plain ones always, a negative integer that is
/// one, and a number that is read as it is written; an array where its items do, and an object
/// where its members do and no name stands twice, each a level further down.
pub proof fn what_survives(
    flag: bool,
    natural: u64,
    integer: i64,
    text: Seq<char>,
    items: Seq<JsonView>,
    members: Seq<(Seq<char>, JsonView)>,
    depth: nat,
)
    ensures
        JsonView::Null.survives(depth),
        JsonView::Bool(flag).survives(depth),
        JsonView::PosInt(natural).survives(depth),
        JsonView::Str(text).survives(depth),
        JsonView::NegInt(integer).survives(depth) <==> integer < 0,
        JsonView::Float(text).survives(depth) <==> json::json_parse(text) == Some(
            JsonView::Float(text),
        ),
        !JsonView::Array(items).survives(0),
        !JsonView::Object(members).survives(0),
        JsonView::Array(items).survives(depth + 1) <==> forall|i: int|
            0 <= i < items.len() ==> (#[trigger] items[i]).survives(depth),
        JsonView::Object(members).survives(depth + 1) <==> {
            &&& forall|i: int|
                0 <= i < members.len() ==> (#[trigger] members[i]).1.survives(depth)
            &&& forall|i: int, j: int|
                0 <= i < members.len() && 0 <= j < members.len() && i != j ==> (
                #[trigger] members[i]).0 != (#[trigger] members[j]).0
        },
{
    items_survive(items, depth + 1);
    if JsonView::Object(members).survives(depth + 1) {
        assert(json::distinct_names(members));
    }
}

/// The items of an array that survives do so.
proof fn items_survive(items: Seq<JsonView>, depth: nat)
    requires
        depth > 0,
    ensures
        JsonView::Array(items).survives(depth) <==> forall|i: int|
            0 <= i < items.len() ==> (#[trigger] items[i]).survives((depth - 1) as nat),
{
    let value = JsonView::Array(items);
    if value.survives(depth) {
        assert(value->Array_0 == items);
        assert forall|i: int| 0 <= i < items.len() implies (#[trigger] items[i]).survives(
            (depth - 1) as nat,
        ) by {
            assert(value->Array_0[i].survives((depth - 1) as nat));
        }
    }
}

/// A text stands on one line exactly where it has no line end in it.
pub proof fn one_line_has_no_line_end(text: Seq<char>)
    ensures
        json::on_one_line(text) <==> !text.contains('\n'),
{
}

/// Every error is told under its JSON-RPC code and in words; what goes with it is told whole.
pub proof fn errors_are_told(reason: Seq<char>, code: i32)
    ensures
        McpErrorView::ParseError.code() == -32700,
        McpErrorView::InvalidRequest(reason).code() == -32600,
        McpErrorView::InvalidParams.code() == -32602,
        McpErrorView::InternalError.code() == -32603,
        McpErrorView::NotConnected.code() == -32000,
        McpErrorView::ConnectionClosed.code() == -32000,
        McpErrorView::RequestTimeout.code() == -32000,
        McpErrorView::CapabilityNotSupported(reason).code() == -32000,
        (McpErrorView::Custom { code, message: reason }).code() == code,
        McpErrorView::ParseError.message() == "Parse error"@,
        McpErrorView::InvalidRequest(reason).message() == "Invalid request: "@ + reason,
        McpErrorView::InvalidParams.message() == "Invalid params"@,
        McpErrorView::InternalError.message() == "Internal error"@,
        McpErrorView::NotConnected.message() == "Not connected"@,
        McpErrorView::ConnectionClosed.message() == "Connection closed"@,
        McpErrorView::RequestTimeout.message() == "Request timeout"@,
        McpErrorView::CapabilityNotSupported(reason).message() == "Capability not supported: "@
            + reason,
        (McpErrorView::Custom { code, message: reason }).message() == reason,
{
}

/// The view of an error says which it is and holds all that goes with it.
pub proof fn views_of_errors_hold_all(reason: String, code: i32)
    ensures
        McpError::ParseError@ == McpErrorView::ParseError,
        McpError::InvalidRequest(reason)@ == McpErrorView::InvalidRequest(reason@),
        McpError::InvalidParams@ == McpErrorView::InvalidParams,
        McpError::InternalError@ == McpErrorView::InternalError,
        McpError::NotConnected@ == McpErrorView::NotConnected,
        McpError::ConnectionClosed@ == McpErrorView::ConnectionClosed,
        McpError::RequestTimeout@ == McpErrorView::RequestTimeout,
        McpError::CapabilityNotSupported(reason)@ == McpErrorView::CapabilityNotSupported(reason@),
        (McpError::Custom { code, message: reason })@ == (McpErrorView::Custom {
            code,
            message: reason@,
        }),
        crate::error::outcome_view(Ok(())) == Ok::<(), McpErrorView>(()),
        crate::error::outcome_view(Err(McpError::InvalidRequest(reason))) == Err::<
            (),
            McpErrorView,
        >(McpErrorView::InvalidRequest(reason@)),
{
}

/// An outcome is told for what it is: a failure by its error.
pub proof fn outcomes_are_told(error: McpError)
    ensures
        crate::error::outcome_view(Err(error)) == Err::<(), McpErrorView>(error@),
{
}

} // verus!
