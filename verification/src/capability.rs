//! What one side can do, as it is told to the other.
use crate::json;
use crate::json::{Json, JsonView};
use vstd::prelude::*;

verus! {

/// Something that a side can do.
pub trait Capability: Sized {
    /// The capability as JSON.
    spec fn json(self) -> JsonView;

    /// The capability that JSON holds.
    spec fn of_json(json: JsonView) -> Option<Self>;

    /// A capability is read from its own JSON, which is an object.
    proof fn is_read_from_its_json(self)
        ensures
            Self::of_json(self.json()) == Some(self),
            self.json() is Object,
    ;

    /// The capability as JSON.
    fn to_json(&self) -> (json: Json)
        ensures
            json@ == self.json(),
    ;

    /// The capability that JSON holds.
    fn from_json(json: &Json) -> (capability: Option<Self>)
        ensures
            capability == Self::of_json(json@),
    ;
}

/// A capability that need not be there, as JSON.
pub open spec fn optional_json<C: Capability>(capability: Option<C>) -> JsonView {
    match capability {
        Some(capability) => capability.json(),
        None => JsonView::Null,
    }
}

/// A capability that need not be there, from its field: nothing where the field is no capability.
pub open spec fn optional_of_json<C: Capability>(field: Option<JsonView>) -> Option<Option<C>> {
    match field {
        Some(JsonView::Null) | None => Some(None),
        Some(json) => match C::of_json(json) {
            Some(capability) => Some(Some(capability)),
            None => None,
        },
    }
}

/// A capability that need not be there is read from its own JSON.
pub proof fn optional_is_read_from_its_json<C: Capability>(capability: Option<C>)
    ensures
        optional_of_json::<C>(Some(optional_json(capability))) == Some(capability),
{
    if let Some(capability) = capability {
        capability.is_read_from_its_json();
    }
}

/// A capability that need not be there, as JSON.
pub fn write_optional<C: Capability>(capability: &Option<C>) -> (json: Json)
    ensures
        json@ == optional_json(*capability),
{
    match capability {
        Some(capability) => capability.to_json(),
        None => Json::Null,
    }
}

/// A capability that need not be there, from its field.
pub fn read_optional<C: Capability>(field: Option<&Json>) -> (capability: Option<Option<C>>)
    ensures
        capability == optional_of_json::<C>(json::optional_ref_view(field)),
{
    match field {
        Some(Json::Null) | None => Some(None),
        Some(json) => match C::from_json(json) {
            Some(capability) => Some(Some(capability)),
            None => None,
        },
    }
}

} // verus!
