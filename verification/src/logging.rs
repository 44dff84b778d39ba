//! Logging: what a server can do with it, and what is asked of it.
use crate::capability::Capability;
use crate::json;
use crate::json::{object, push_member, Json, JsonView};
use vstd::prelude::*;

verus! {

/// A server that takes a log level.
#[derive(Debug, Clone, Copy)]
pub struct LoggingCapabilities {}

/// The parameters of a request for a log level, as JSON.
pub open spec fn level_json(level: Seq<char>) -> JsonView {
    JsonView::Object(Seq::empty().push(("level"@, JsonView::Str(level))))
}

/// The parameters of a request for a log level.
pub fn write_level(level: &str) -> (json: Json)
    ensures
        json@ == level_json(level@),
{
    let mut members: Vec<(String, Json)> = Vec::new();
    push_member(&mut members, "level", Json::string(level));
    assert(json::members_view(members@) =~= level_json(level@)->Object_0);
    object(members)
}

impl Capability for LoggingCapabilities {
    open spec fn json(self) -> JsonView {
        JsonView::Object(Seq::empty())
    }

    open spec fn of_json(json: JsonView) -> Option<LoggingCapabilities> {
        if json.is_record(0) {
            Some(LoggingCapabilities {  })
        } else {
            None
        }
    }

    proof fn is_read_from_its_json(self) {
    }

    fn to_json(&self) -> (json: Json) {
        let members: Vec<(String, Json)> = Vec::new();
        assert(json::members_view(members@) =~= Seq::empty());
        object(members)
    }

    fn from_json(json: &Json) -> (capabilities: Option<LoggingCapabilities>) {
        if json.is_record(0) {
            Some(LoggingCapabilities {  })
        } else {
            None
        }
    }
}

} // verus!
