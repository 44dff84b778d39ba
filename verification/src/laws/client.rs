//! What holds of a client, and of what client and server tell each other.
use crate::capability;
use crate::capability::Capability;
use crate::client;
use crate::client::types;
use crate::client::types::{
    ClientCapabilities, ClientInfo, InfoView, InitializeParams, InitializeResult, ParamsView,
    ResultView, RootsCapabilities, SamplingCapabilities, ServerCapabilities, ServerInfo,
};
use crate::client::{ClientStep, ClientView};
use crate::error::{McpError, McpErrorView};
use crate::json;
use crate::json::JsonView;
use crate::logging;
use crate::logging::LoggingCapabilities;
use crate::prompts;
use crate::prompts::PromptCapabilities;
use crate::protocol::message::RequestView;
use crate::protocol::PendingRequest;
use crate::resource;
use crate::resource::ResourceCapabilities;
use crate::tools::ToolCapabilities;
use crate::transport::message::MessageView;
use crate::transport::{CommandView, EventView};
use vstd::prelude::*;

verus! {

/// What a client that has met its server asks for, and the server has the capability for, goes out
/// as a request of just that method and with just those parameters, under the next id, and is
/// awaited for a minute; nothing else of the client changes.
pub proof fn what_is_asked_goes_out_as_it_is<W>(
    client: ClientView<W>,
    capability: Seq<char>,
    method: Seq<char>,
    params: JsonView,
    handler: W,
    after: ClientView<W>,
    made: Result<PendingRequest, McpError>,
)
    requires
        client.asked(capability, method, params, handler, after, made),
        client.protocol.last_id < u64::MAX,
        client.initialized,
        client.server_capabilities is Some,
        client.server_capabilities->0.names(capability),
        client.protocol.connected,
    ensures
        made is Ok,
        made->Ok_0.id == client.protocol.last_id + 1,
        made->Ok_0.timeout_ms == 60000,
        made->Ok_0.command@ == CommandView::SendMessage(
            MessageView::Request(
                RequestView {
                    jsonrpc: "2.0"@,
                    id: made->Ok_0.id,
                    method,
                    params: Some(params),
                },
            ),
        ),
        after.protocol.last_id == client.protocol.last_id + 1,
        after.protocol.response_handlers == client.protocol.response_handlers.insert(
            made->Ok_0.id,
            handler,
        ),
        after.protocol.progress_handlers == client.protocol.progress_handlers,
        after.protocol.connected,
        after.initialized,
        after.server_capabilities == client.server_capabilities,
{
}

/// What a client that has met its server asks for while it is not connected fails for that; it is
/// awaited all the same, as nothing undoes the asking.
pub proof fn what_is_asked_while_not_connected_fails<W>(
    client: ClientView<W>,
    capability: Seq<char>,
    method: Seq<char>,
    params: JsonView,
    handler: W,
    after: ClientView<W>,
    made: Result<PendingRequest, McpError>,
)
    requires
        client.asked(capability, method, params, handler, after, made),
        client.protocol.last_id < u64::MAX,
        client.initialized,
        client.server_capabilities is Some,
        client.server_capabilities->0.names(capability),
        !client.protocol.connected,
    ensures
        made is Err,
        made->Err_0@ == McpErrorView::NotConnected,
        after.protocol.last_id == client.protocol.last_id + 1,
        after.protocol.response_handlers.contains_key((client.protocol.last_id + 1) as u64),
{
}

/// What needs a capability that the server has not is refused under the name of the capability,
/// and leaves no trace.
pub proof fn what_the_server_cannot_do_is_not_asked<W>(
    client: ClientView<W>,
    capability: Seq<char>,
    method: Seq<char>,
    params: JsonView,
    handler: W,
    after: ClientView<W>,
    made: Result<PendingRequest, McpError>,
)
    requires
        client.asked(capability, method, params, handler, after, made),
        client.initialized,
        client.server_capabilities is Some,
        !client.server_capabilities->0.names(capability),
    ensures
        made is Err,
        made->Err_0@ == McpErrorView::CapabilityNotSupported(capability),
        after == client,
{
}

/// A client that was told of capabilities has exactly those four that stand there, under their
/// names; each is there exactly where the server said something of it.
pub proof fn capabilities_are_there_by_their_names<W>(
    client: ClientView<W>,
    capabilities: ServerCapabilities,
    name: Seq<char>,
)
    ensures
        capabilities.names("logging"@) == capabilities.logging is Some,
        capabilities.names("prompts"@) == capabilities.prompts is Some,
        capabilities.names("resources"@) == capabilities.resources is Some,
        capabilities.names("tools"@) == capabilities.tools is Some,
        name != "logging"@ && name != "prompts"@ && name != "resources"@ && name != "tools"@
            ==> !capabilities.names(name),
        client.server_capabilities == Some(capabilities) ==> client.has_capability(name)
            == capabilities.names(name),
        client.server_capabilities is None ==> !client.has_capability(name),
        client.server_capabilities == Some(capabilities) && capabilities.names(name)
            ==> client.asserted(name) == Ok::<(), McpErrorView>(()),
        client.server_capabilities == Some(capabilities) && !capabilities.names(name)
            ==> client.asserted(name) == Err::<(), McpErrorView>(
            McpErrorView::CapabilityNotSupported(name),
        ),
        client.server_capabilities is None ==> client.asserted(name) == Err::<(), McpErrorView>(
            McpErrorView::InvalidRequest("No server capabilities"@),
        ),
        !client.initialized ==> client.refusal(name) == Some(
            McpErrorView::InvalidRequest("Client not initialized"@),
        ),
        client.initialized && client.asserted(name) is Ok ==> client.refusal(name) is None,
        client.initialized && client.server_capabilities is None ==> client.refusal(name) == Some(
            McpErrorView::InvalidRequest("No server capabilities"@),
        ),
        client.initialized && client.server_capabilities == Some(capabilities)
            && !capabilities.names(name) ==> client.refusal(name) == Some(
            McpErrorView::CapabilityNotSupported(name),
        ),
        client.knows_its_server() <==> !client.initialized || client.server_capabilities is Some,
{
    types::capability_names_differ();
}

/// A client says of itself which version it speaks, who it is, that it can list roots and tells
/// when they change, and that it can sample.
pub proof fn a_client_says_who_it_is(client_info: InfoView)
    ensures
        client::introduction(client_info).protocol_version == "2024-11-05"@,
        client::introduction(client_info).client_info.name == client_info.name,
        client::introduction(client_info).client_info.version == client_info.version,
        client::introduction(client_info).capabilities.roots matches Some(roots)
            && roots.list_changed,
        client::introduction(client_info).capabilities.sampling is Some,
{
}

/// What a server says of itself is taken as it was said, where it is such a saying and the version
/// is right; another version is named in the refusal.
pub proof fn a_server_is_taken_at_its_word(value: JsonView, said: ResultView)
    ensures
        ResultView::of_json(value) == Some(said) && said.protocol_version == "2024-11-05"@
            ==> client::introduction_value(value) == Ok::<ResultView, McpErrorView>(said),
        ResultView::of_json(value) == Some(said) && said.protocol_version != "2024-11-05"@
            ==> client::introduction_value(value) == Err::<ResultView, McpErrorView>(
            McpErrorView::InvalidRequest("Unsupported protocol version: "@ + said.protocol_version),
        ),
        ResultView::of_json(value) is None ==> client::introduction_value(value) == Err::<
            ResultView,
            McpErrorView,
        >(McpErrorView::InvalidParams),
{
}

/// Each step of a client changes what it is about, and nothing else.
pub proof fn steps_change_what_they_are_about<W>(
    client: ClientView<W>,
    event: Option<EventView>,
    id: u64,
    handler: W,
    value: JsonView,
    said: ResultView,
    taken: bool,
    capability: Seq<char>,
)
    requires
        client.protocol.last_id < u64::MAX,
    ensures
        ({
            let after = client.step(ClientStep::Connected);
            &&& after.protocol.connected
            &&& after.protocol.last_id == client.protocol.last_id
            &&& after.protocol.strict == client.protocol.strict
            &&& after.protocol.request_handlers == client.protocol.request_handlers
            &&& after.protocol.notification_handlers == client.protocol.notification_handlers
            &&& after.protocol.response_handlers == client.protocol.response_handlers
            &&& after.protocol.progress_handlers == client.protocol.progress_handlers
            &&& after.initialized == client.initialized
            &&& after.server_capabilities == client.server_capabilities
        }),
        ({
            let after = client.step(ClientStep::Event(event));
            &&& after.protocol == client.protocol.notified(event)
            &&& after.initialized == client.initialized
            &&& after.server_capabilities == client.server_capabilities
        }),
        ({
            let after = client.step(ClientStep::Finished(id));
            &&& after.protocol == client.protocol.finished(id)
            &&& after.initialized == client.initialized
            &&& after.server_capabilities == client.server_capabilities
        }),
        client.initialized ==> client.step(ClientStep::Introduced(handler)) == client,
        !client.initialized ==> {
            let after = client.step(ClientStep::Introduced(handler));
            &&& after.protocol == client.protocol.requested(None, handler)
            &&& !after.initialized
            &&& after.server_capabilities == client.server_capabilities
        },
        client::introduction_value(value) is Err ==> client.step(ClientStep::Accepted(value))
            == client,
        client::introduction_value(value) == Ok::<ResultView, McpErrorView>(said) ==> {
            let after = client.step(ClientStep::Accepted(value));
            &&& after.protocol == client.protocol
            &&& after.initialized == client.initialized
            &&& after.server_capabilities == Some(said.capabilities)
        },
        ({
            let after = client.step(ClientStep::Confirmed(taken));
            &&& after.protocol == client.protocol
            &&& after.initialized == taken
            &&& after.server_capabilities == client.server_capabilities
        }),
        client.refusal(capability) is Some ==> client.step(ClientStep::Asked(capability, handler))
            == client,
        client.refusal(capability) is None ==> {
            let after = client.step(ClientStep::Asked(capability, handler));
            &&& after.protocol == client.protocol.requested(None, handler)
            &&& after.initialized == client.initialized
            &&& after.server_capabilities == client.server_capabilities
        },
        !client.initialized ==> client.step(ClientStep::ShutDown) == client,
        client.initialized ==> {
            let after = client.step(ClientStep::ShutDown);
            &&& !after.protocol.connected
            &&& after.protocol.last_id == client.protocol.last_id
            &&& after.protocol.strict == client.protocol.strict
            &&& after.protocol.request_handlers == client.protocol.request_handlers
            &&& after.protocol.notification_handlers == client.protocol.notification_handlers
            &&& after.protocol.response_handlers == client.protocol.response_handlers
            &&& after.protocol.progress_handlers == client.protocol.progress_handlers
            &&& after.initialized
            &&& after.server_capabilities == client.server_capabilities
        },
{
}

/// What may happen to a client: it is asked only while there are ids, takes a server in only
/// before it has met one, and has met it only once it knows it.
pub proof fn what_may_happen_to_a_client<W>(
    client: ClientView<W>,
    handler: W,
    capability: Seq<char>,
    value: JsonView,
    taken: bool,
    steps: Seq<ClientStep<W>>,
    step: ClientStep<W>,
)
    ensures
        client.may(ClientStep::Introduced(handler)) <==> client.protocol.last_id < u64::MAX,
        client.may(ClientStep::Asked(capability, handler)) <==> client.protocol.last_id < u64::MAX,
        client.may(ClientStep::Accepted(value)) <==> !client.initialized,
        client.may(ClientStep::Confirmed(taken)) <==> !client.initialized
            && client.server_capabilities is Some,
        step is Connected || step is Event || step is Finished || step is ShutDown ==> client.may(
            step,
        ),
        client.run(Seq::empty()) == client,
        client.run(steps.push(step)) == client.run(steps).step(step),
        client.may_run(Seq::empty()),
        client.may_run(steps.push(step)) <==> client.may_run(steps) && client.run(steps).may(step),
{
    assert(steps.push(step).drop_last() =~= steps);
}

/// The parameters of what a client asks hold just what it asks for.
pub proof fn members_of_written_questions(
    cursor: Option<Seq<char>>,
    text: Seq<char>,
    arguments: Option<JsonView>,
)
    ensures
        resource::cursor_json(cursor).is_object_of(1),
        resource::cursor_json(cursor).member("cursor"@) == Some(
            match cursor {
                Some(cursor) => JsonView::Str(cursor),
                None => JsonView::Null,
            },
        ),
        resource::uri_json(text).is_object_of(1),
        resource::uri_json(text).member("uri"@) == Some(JsonView::Str(text)),
        logging::level_json(text).is_object_of(1),
        logging::level_json(text).member("level"@) == Some(JsonView::Str(text)),
        prompts::prompt_json(text, arguments).is_object_of(2),
        prompts::prompt_json(text, arguments).member("name"@) == Some(JsonView::Str(text)),
        prompts::prompt_json(text, arguments).member("arguments"@) == Some(
            match arguments {
                Some(arguments) => arguments,
                None => JsonView::Null,
            },
        ),
{
    broadcast use json::lookup_push;

    reveal_strlit("name");
    reveal_strlit("arguments");
    assert("name"@.len() != "arguments"@.len());
}

/// A cursor is read from any object, where it has none or one in text, and a uri from any object
/// that has one in text; an array of the one item is read as the object.
pub proof fn cursors_and_uris_are_read(
    members: Seq<(Seq<char>, JsonView)>,
    item: JsonView,
    value: JsonView,
)
    ensures
        match resource::cursor_of_json(JsonView::Object(members)) {
            Some(Some(cursor)) => json::lookup(members, "cursor"@) == Some(JsonView::Str(cursor)),
            Some(None) => json::lookup(members, "cursor"@) is None || json::lookup(
                members,
                "cursor"@,
            ) == Some(JsonView::Null),
            None => json::lookup(members, "cursor"@) matches Some(cursor) && !(cursor is Str) && !(
            cursor is Null),
        },
        match resource::uri_of_json(JsonView::Object(members)) {
            Some(uri) => json::lookup(members, "uri"@) == Some(JsonView::Str(uri)),
            None => !(json::lookup(members, "uri"@) matches Some(JsonView::Str(_))),
        },
        resource::cursor_of_json(JsonView::Array(Seq::empty().push(item)))
            == resource::cursor_of_json(
            JsonView::Object(Seq::empty().push(("cursor"@, item))),
        ),
        resource::uri_of_json(JsonView::Array(Seq::empty().push(item))) == resource::uri_of_json(
            JsonView::Object(Seq::empty().push(("uri"@, item))),
        ),
        !(value is Object) && !(value is Array) ==> resource::cursor_of_json(value) is None
            && resource::uri_of_json(value) is None,
{
    broadcast use json::lookup_push;

}

/// What a side can do is written with each thing that can be said of it.
pub proof fn members_of_written_capabilities(
    resources: ResourceCapabilities,
    tools: ToolCapabilities,
    prompts: PromptCapabilities,
    roots: RootsCapabilities,
    logging: LoggingCapabilities,
    sampling: SamplingCapabilities,
)
    ensures
        resources.json().is_object_of(2),
        resources.json().member("subscribe"@) == Some(JsonView::Bool(resources.subscribe)),
        resources.json().member("list_changed"@) == Some(JsonView::Bool(resources.list_changed)),
        tools.json().is_object_of(1),
        tools.json().member("list_changed"@) == Some(JsonView::Bool(tools.list_changed)),
        prompts.json().is_object_of(1),
        prompts.json().member("list_changed"@) == Some(JsonView::Bool(prompts.list_changed)),
        roots.json().is_object_of(1),
        roots.json().member("list_changed"@) == Some(JsonView::Bool(roots.list_changed)),
        logging.json().is_object_of(0),
        sampling.json().is_object_of(0),
{
    broadcast use json::lookup_push;

    reveal_strlit("subscribe");
    reveal_strlit("list_changed");
    assert("subscribe"@.len() != "list_changed"@.len());
}

/// What a side can do is read from any object that says it, and from nothing that does not.
pub proof fn capabilities_are_read_from_objects(
    members: Seq<(Seq<char>, JsonView)>,
    value: JsonView,
)
    ensures
        match ResourceCapabilities::of_json(JsonView::Object(members)) {
            Some(read) => {
                &&& json::lookup(members, "subscribe"@) == Some(JsonView::Bool(read.subscribe))
                &&& json::lookup(members, "list_changed"@) == Some(
                    JsonView::Bool(read.list_changed),
                )
            },
            None => {
                ||| !(json::lookup(members, "subscribe"@) matches Some(JsonView::Bool(_)))
                ||| !(json::lookup(members, "list_changed"@) matches Some(JsonView::Bool(_)))
            },
        },
        match ToolCapabilities::of_json(JsonView::Object(members)) {
            Some(read) => json::lookup(members, "list_changed"@) == Some(
                JsonView::Bool(read.list_changed),
            ),
            None => !(json::lookup(members, "list_changed"@) matches Some(JsonView::Bool(_))),
        },
        match PromptCapabilities::of_json(JsonView::Object(members)) {
            Some(read) => json::lookup(members, "list_changed"@) == Some(
                JsonView::Bool(read.list_changed),
            ),
            None => !(json::lookup(members, "list_changed"@) matches Some(JsonView::Bool(_))),
        },
        match RootsCapabilities::of_json(JsonView::Object(members)) {
            Some(read) => json::lookup(members, "list_changed"@) == Some(
                JsonView::Bool(read.list_changed),
            ),
            None => !(json::lookup(members, "list_changed"@) matches Some(JsonView::Bool(_))),
        },
        LoggingCapabilities::of_json(JsonView::Object(members)) is Some,
        SamplingCapabilities::of_json(JsonView::Object(members)) is Some,
        !(value is Object) && !(value is Array) ==> {
            &&& ResourceCapabilities::of_json(value) is None
            &&& ToolCapabilities::of_json(value) is None
            &&& PromptCapabilities::of_json(value) is None
            &&& RootsCapabilities::of_json(value) is None
            &&& LoggingCapabilities::of_json(value) is None
            &&& SamplingCapabilities::of_json(value) is None
            &&& ClientCapabilities::of_json(value) is None
            &&& ServerCapabilities::of_json(value) is None
        },
{
}

/// A capability that is there is written as it is, and one that is not as null; what is null, or
/// not there, is read as none, and anything else as the capability that it must be.
pub proof fn capabilities_that_need_not_be_there<C: Capability>(
    capability: C,
    field: Option<JsonView>,
)
    ensures
        capability::optional_json(Some(capability)) == capability.json(),
        capability::optional_json(None::<C>) == JsonView::Null,
        field is None || field == Some(JsonView::Null) ==> capability::optional_of_json::<C>(field)
            == Some(None::<C>),
        field is Some && field != Some(JsonView::Null) ==> match C::of_json(field->0) {
            Some(read) => capability::optional_of_json::<C>(field) == Some(Some(read)),
            None => capability::optional_of_json::<C>(field) is None,
        },
        types::required_capability::<C>(None) is None,
        field is Some ==> types::required_capability::<C>(field) == C::of_json(field->0),
{
}

/// What a client can do is written with what is there alone; what a server can do with null for
/// what is not.
pub proof fn members_of_all_written_capabilities(
    client: ClientCapabilities,
    server: ServerCapabilities,
)
    ensures
        client.json().member("roots"@) == match client.roots {
            Some(roots) => Some(roots.json()),
            None => None,
        },
        client.json().member("sampling"@) == match client.sampling {
            Some(sampling) => Some(sampling.json()),
            None => None,
        },
        client.json().is_object_of(
            (if client.roots is Some {
                1nat
            } else {
                0
            }) + (if client.sampling is Some {
                1nat
            } else {
                0
            }),
        ),
        server.json().is_object_of(4),
        server.json().member("logging"@) == Some(
            match server.logging {
                Some(logging) => logging.json(),
                None => JsonView::Null,
            },
        ),
        server.json().member("prompts"@) == Some(
            match server.prompts {
                Some(prompts) => prompts.json(),
                None => JsonView::Null,
            },
        ),
        server.json().member("resources"@) == Some(
            match server.resources {
                Some(resources) => resources.json(),
                None => JsonView::Null,
            },
        ),
        server.json().member("tools"@) == Some(
            match server.tools {
                Some(tools) => tools.json(),
                None => JsonView::Null,
            },
        ),
{
    broadcast use json::lookup_push;

    types::capability_names_differ();
    reveal_strlit("roots");
    reveal_strlit("sampling");
    assert("roots"@.len() != "sampling"@.len());
}

/// What a side can do is read from an object as each of its members says it; it is none where one
/// of them says none.
pub proof fn all_capabilities_are_read_from_objects(members: Seq<(Seq<char>, JsonView)>)
    ensures
        ({
            let roots = capability::optional_of_json::<RootsCapabilities>(
                json::lookup(members, "roots"@),
            );
            let sampling = capability::optional_of_json::<SamplingCapabilities>(
                json::lookup(members, "sampling"@),
            );
            match ClientCapabilities::of_json(JsonView::Object(members)) {
                Some(read) => roots == Some(read.roots) && sampling == Some(read.sampling),
                None => roots is None || sampling is None,
            }
        }),
        ({
            let logging = capability::optional_of_json::<LoggingCapabilities>(
                json::lookup(members, "logging"@),
            );
            let prompts = capability::optional_of_json::<PromptCapabilities>(
                json::lookup(members, "prompts"@),
            );
            let resources = capability::optional_of_json::<ResourceCapabilities>(
                json::lookup(members, "resources"@),
            );
            let tools = capability::optional_of_json::<ToolCapabilities>(
                json::lookup(members, "tools"@),
            );
            match ServerCapabilities::of_json(JsonView::Object(members)) {
                Some(read) => {
                    &&& logging == Some(read.logging)
                    &&& prompts == Some(read.prompts)
                    &&& resources == Some(read.resources)
                    &&& tools == Some(read.tools)
                },
                None => logging is None || prompts is None || resources is None || tools is None,
            }
        }),
{
}

/// The view of what one side tells the other holds all of it.
pub proof fn views_of_introductions_hold_all(
    client: ClientInfo,
    server: ServerInfo,
    params: InitializeParams,
    result: InitializeResult,
)
    ensures
        client@.name == client.name@,
        client@.version == client.version@,
        server@.name == server.name@,
        server@.version == server.version@,
        params@.protocol_version == params.protocol_version@,
        params@.capabilities == params.capabilities,
        params@.client_info == params.client_info@,
        result@.protocol_version == result.protocol_version@,
        result@.capabilities == result.capabilities,
        result@.server_info == result.server_info@,
{
}

/// What one side tells the other is written under these names.
pub proof fn members_of_written_introductions(
    info: InfoView,
    params: ParamsView,
    result: ResultView,
)
    ensures
        info.json().is_object_of(2),
        info.json().member("name"@) == Some(JsonView::Str(info.name)),
        info.json().member("version"@) == Some(JsonView::Str(info.version)),
        params.json().is_object_of(3),
        params.json().member("protocol_version"@) == Some(JsonView::Str(params.protocol_version)),
        params.json().member("capabilities"@) == Some(params.capabilities.json()),
        params.json().member("client_info"@) == Some(params.client_info.json()),
        result.json().is_object_of(3),
        result.json().member("protocol_version"@) == Some(JsonView::Str(result.protocol_version)),
        result.json().member("capabilities"@) == Some(result.capabilities.json()),
        result.json().member("server_info"@) == Some(result.server_info.json()),
{
    broadcast use json::lookup_push;

    reveal_strlit("name");
    reveal_strlit("version");
    assert("name"@.len() != "version"@.len());
    reveal_strlit("protocol_version");
    reveal_strlit("capabilities");
    reveal_strlit("client_info");
    reveal_strlit("server_info");
    assert("protocol_version"@.len() != "capabilities"@.len());
    assert("protocol_version"@.len() != "client_info"@.len());
    assert("protocol_version"@.len() != "server_info"@.len());
    assert("capabilities"@.len() != "client_info"@.len());
    assert("capabilities"@.len() != "server_info"@.len());
}

/// What one side tells the other is read from any object that says it under these names.
pub proof fn introductions_are_read_from_objects(members: Seq<(Seq<char>, JsonView)>)
    ensures
        match InfoView::of_json(JsonView::Object(members)) {
            Some(info) => {
                &&& json::lookup(members, "name"@) == Some(JsonView::Str(info.name))
                &&& json::lookup(members, "version"@) == Some(JsonView::Str(info.version))
            },
            None => {
                ||| !(json::lookup(members, "name"@) matches Some(JsonView::Str(_)))
                ||| !(json::lookup(members, "version"@) matches Some(JsonView::Str(_)))
            },
        },
        match ParamsView::of_json(JsonView::Object(members)) {
            Some(params) => {
                &&& json::lookup(members, "protocol_version"@) == Some(
                    JsonView::Str(params.protocol_version),
                )
                &&& json::lookup(members, "capabilities"@) matches Some(capabilities)
                    && ClientCapabilities::of_json(capabilities) == Some(params.capabilities)
                &&& json::lookup(members, "client_info"@) matches Some(info) && InfoView::of_json(
                    info,
                ) == Some(params.client_info)
            },
            None => {
                ||| !(json::lookup(members, "protocol_version"@) matches Some(JsonView::Str(_)))
                ||| types::required_capability::<ClientCapabilities>(
                    json::lookup(members, "capabilities"@),
                ) is None
                ||| json::lookup(members, "client_info"@) is None
                ||| InfoView::of_json(json::lookup(members, "client_info"@)->0) is None
            },
        },
        match ResultView::of_json(JsonView::Object(members)) {
            Some(result) => {
                &&& json::lookup(members, "protocol_version"@) == Some(
                    JsonView::Str(result.protocol_version),
                )
                &&& json::lookup(members, "capabilities"@) matches Some(capabilities)
                    && ServerCapabilities::of_json(capabilities) == Some(result.capabilities)
                &&& json::lookup(members, "server_info"@) matches Some(info) && InfoView::of_json(
                    info,
                ) == Some(result.server_info)
            },
            None => {
                ||| !(json::lookup(members, "protocol_version"@) matches Some(JsonView::Str(_)))
                ||| types::required_capability::<ServerCapabilities>(
                    json::lookup(members, "capabilities"@),
                ) is None
                ||| json::lookup(members, "server_info"@) is None
                ||| InfoView::of_json(json::lookup(members, "server_info"@)->0) is None
            },
        },
{
}

/// What one side tells the other is read from an array as from the object whose members are its
/// items, in the order in which they are written.
pub proof fn an_array_is_read_as_the_object(
    first: JsonView,
    second: JsonView,
    third: JsonView,
    fourth: JsonView,
)
    ensures
        InfoView::of_json(JsonView::Array(Seq::empty().push(first).push(second)))
            == InfoView::of_json(
            JsonView::Object(Seq::empty().push(("name"@, first)).push(("version"@, second))),
        ),
        ParamsView::of_json(JsonView::Array(Seq::empty().push(first).push(second).push(third)))
            == ParamsView::of_json(
            JsonView::Object(
                Seq::empty()
                    .push(("protocol_version"@, first))
                    .push(("capabilities"@, second))
                    .push(("client_info"@, third)),
            ),
        ),
        ResultView::of_json(JsonView::Array(Seq::empty().push(first).push(second).push(third)))
            == ResultView::of_json(
            JsonView::Object(
                Seq::empty()
                    .push(("protocol_version"@, first))
                    .push(("capabilities"@, second))
                    .push(("server_info"@, third)),
            ),
        ),
        ResourceCapabilities::of_json(JsonView::Array(Seq::empty().push(first).push(second)))
            == ResourceCapabilities::of_json(
            JsonView::Object(
                Seq::empty().push(("subscribe"@, first)).push(("list_changed"@, second)),
            ),
        ),
        ToolCapabilities::of_json(JsonView::Array(Seq::empty().push(first)))
            == ToolCapabilities::of_json(
            JsonView::Object(Seq::empty().push(("list_changed"@, first))),
        ),
        PromptCapabilities::of_json(JsonView::Array(Seq::empty().push(first)))
            == PromptCapabilities::of_json(
            JsonView::Object(Seq::empty().push(("list_changed"@, first))),
        ),
        RootsCapabilities::of_json(JsonView::Array(Seq::empty().push(first)))
            == RootsCapabilities::of_json(
            JsonView::Object(Seq::empty().push(("list_changed"@, first))),
        ),
        LoggingCapabilities::of_json(JsonView::Array(Seq::empty())) is Some,
        LoggingCapabilities::of_json(JsonView::Array(Seq::empty().push(first))) is None,
        SamplingCapabilities::of_json(JsonView::Array(Seq::empty())) is Some,
        SamplingCapabilities::of_json(JsonView::Array(Seq::empty().push(first))) is None,
        ClientCapabilities::of_json(JsonView::Array(Seq::empty().push(first).push(second)))
            == ClientCapabilities::of_json(
            JsonView::Object(Seq::empty().push(("roots"@, first)).push(("sampling"@, second))),
        ),
        ServerCapabilities::of_json(
            JsonView::Array(Seq::empty().push(first).push(second).push(third).push(fourth)),
        ) == ServerCapabilities::of_json(
            JsonView::Object(
                Seq::empty()
                    .push(("logging"@, first))
                    .push(("prompts"@, second))
                    .push(("resources"@, third))
                    .push(("tools"@, fourth)),
            ),
        ),
{
    broadcast use json::lookup_push;

    types::capability_names_differ();
    reveal_strlit("name");
    reveal_strlit("version");
    assert("name"@.len() != "version"@.len());
    reveal_strlit("subscribe");
    reveal_strlit("list_changed");
    assert("subscribe"@.len() != "list_changed"@.len());
    reveal_strlit("roots");
    reveal_strlit("sampling");
    assert("roots"@.len() != "sampling"@.len());
    reveal_strlit("protocol_version");
    reveal_strlit("capabilities");
    reveal_strlit("client_info");
    reveal_strlit("server_info");
    assert("protocol_version"@.len() != "capabilities"@.len());
    assert("protocol_version"@.len() != "client_info"@.len());
    assert("protocol_version"@.len() != "server_info"@.len());
    assert("capabilities"@.len() != "client_info"@.len());
    assert("capabilities"@.len() != "server_info"@.len());
}

} // verus!
