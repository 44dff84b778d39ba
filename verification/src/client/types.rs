//! What client and server tell each other when they meet.
use crate::capability;
use crate::capability::{read_optional, write_optional, Capability};
use crate::json;
use crate::json::{object, push_member, read_bool, read_text, Json, JsonView};
use crate::logging::LoggingCapabilities;
use crate::prompts::PromptCapabilities;
use crate::resource::ResourceCapabilities;
use crate::text::same_text;
use crate::tools::ToolCapabilities;
use vstd::prelude::*;

verus! {

/// What a client can do with roots.
#[derive(Debug, Clone, Copy)]
pub struct RootsCapabilities {
    pub list_changed: bool,
}

/// A client that can sample.
#[derive(Debug, Clone, Copy)]
pub struct SamplingCapabilities {}

/// What a client can do.
#[derive(Debug, Clone, Copy)]
pub struct ClientCapabilities {
    pub roots: Option<RootsCapabilities>,
    pub sampling: Option<SamplingCapabilities>,
}

/// Who the client is.
#[derive(Debug)]
pub struct ClientInfo {
    pub name: String,
    pub version: String,
}

/// What a server can do.
#[derive(Debug, Clone, Copy)]
pub struct ServerCapabilities {
    pub logging: Option<LoggingCapabilities>,
    pub prompts: Option<PromptCapabilities>,
    pub resources: Option<ResourceCapabilities>,
    pub tools: Option<ToolCapabilities>,
}

/// Who the server is.
#[derive(Debug)]
pub struct ServerInfo {
    pub name: String,
    pub version: String,
}

/// What a client says of itself.
#[derive(Debug)]
pub struct InitializeParams {
    pub protocol_version: String,
    pub capabilities: ClientCapabilities,
    pub client_info: ClientInfo,
}

/// What a server says of itself.
#[derive(Debug)]
pub struct InitializeResult {
    pub protocol_version: String,
    pub capabilities: ServerCapabilities,
    pub server_info: ServerInfo,
}

/// Who a side is.
pub struct InfoView {
    pub name: Seq<char>,
    pub version: Seq<char>,
}

impl View for ClientInfo {
    type V = InfoView;

    open spec fn view(&self) -> InfoView {
        InfoView { name: self.name@, version: self.version@ }
    }
}

impl View for ServerInfo {
    type V = InfoView;

    open spec fn view(&self) -> InfoView {
        InfoView { name: self.name@, version: self.version@ }
    }
}

/// What an [`InitializeParams`] says.
pub struct ParamsView {
    pub protocol_version: Seq<char>,
    pub capabilities: ClientCapabilities,
    pub client_info: InfoView,
}

impl View for InitializeParams {
    type V = ParamsView;

    open spec fn view(&self) -> ParamsView {
        ParamsView {
            protocol_version: self.protocol_version@,
            capabilities: self.capabilities,
            client_info: self.client_info@,
        }
    }
}

/// What an [`InitializeResult`] says.
pub struct ResultView {
    pub protocol_version: Seq<char>,
    pub capabilities: ServerCapabilities,
    pub server_info: InfoView,
}

impl View for InitializeResult {
    type V = ResultView;

    open spec fn view(&self) -> ResultView {
        ResultView {
            protocol_version: self.protocol_version@,
            capabilities: self.capabilities,
            server_info: self.server_info@,
        }
    }
}

impl Capability for RootsCapabilities {
    open spec fn json(self) -> JsonView {
        JsonView::Object(
            Seq::empty().push(("list_changed"@, JsonView::Bool(self.list_changed))),
        )
    }

    open spec fn of_json(json: JsonView) -> Option<RootsCapabilities> {
        match json::required_bool(json.field("list_changed"@, 0, 1)) {
            Some(list_changed) => Some(RootsCapabilities { list_changed }),
            None => None,
        }
    }

    proof fn is_read_from_its_json(self) {
        broadcast use json::lookup_push;

    }

    fn to_json(&self) -> (json: Json) {
        let mut members: Vec<(String, Json)> = Vec::new();
        push_member(&mut members, "list_changed", Json::Bool(self.list_changed));
        assert(json::members_view(members@) =~= self.json()->Object_0);
        object(members)
    }

    fn from_json(json: &Json) -> (capabilities: Option<RootsCapabilities>) {
        match read_bool(json.field("list_changed", 0, 1)) {
            Some(list_changed) => Some(RootsCapabilities { list_changed }),
            None => None,
        }
    }
}

impl Capability for SamplingCapabilities {
    open spec fn json(self) -> JsonView {
        JsonView::Object(Seq::empty())
    }

    open spec fn of_json(json: JsonView) -> Option<SamplingCapabilities> {
        if json.is_record(0) {
            Some(SamplingCapabilities {  })
        } else {
            None
        }
    }

    proof fn is_read_from_its_json(self) {
    }

    fn to_json(&self) -> (json: Json) {
        let members: Vec<(String, Json)> = Vec::new();
        assert(json::members_view(members@) =~= Seq::empty());
        object(members)
    }

    fn from_json(json: &Json) -> (capabilities: Option<SamplingCapabilities>) {
        if json.is_record(0) {
            Some(SamplingCapabilities {  })
        } else {
            None
        }
    }
}

impl ClientCapabilities {
    /// The members of the capabilities' JSON: only what is there.
    pub open spec fn members(self) -> Seq<(Seq<char>, JsonView)> {
        let roots = match self.roots {
            Some(roots) => Seq::empty().push(("roots"@, roots.json())),
            None => Seq::empty(),
        };
        match self.sampling {
            Some(sampling) => roots.push(("sampling"@, sampling.json())),
            None => roots,
        }
    }
}

impl Capability for ClientCapabilities {
    open spec fn json(self) -> JsonView {
        JsonView::Object(self.members())
    }

    open spec fn of_json(json: JsonView) -> Option<ClientCapabilities> {
        if !json.is_record(2) {
            None
        } else {
            match (
                capability::optional_of_json::<RootsCapabilities>(json.field("roots"@, 0, 2)),
                capability::optional_of_json::<SamplingCapabilities>(
                    json.field("sampling"@, 1, 2),
                ),
            ) {
                (Some(roots), Some(sampling)) => Some(ClientCapabilities { roots, sampling }),
                _ => None,
            }
        }
    }

    proof fn is_read_from_its_json(self) {
        broadcast use json::lookup_push;

        reveal_strlit("roots");
        reveal_strlit("sampling");
        assert("roots"@.len() != "sampling"@.len());
        capability::optional_is_read_from_its_json(self.roots);
        capability::optional_is_read_from_its_json(self.sampling);
    }

    fn to_json(&self) -> (json: Json) {
        let mut members: Vec<(String, Json)> = Vec::new();
        if let Some(roots) = &self.roots {
            push_member(&mut members, "roots", roots.to_json());
        }
        if let Some(sampling) = &self.sampling {
            push_member(&mut members, "sampling", sampling.to_json());
        }
        assert(json::members_view(members@) =~= self.members());
        object(members)
    }

    fn from_json(json: &Json) -> (capabilities: Option<ClientCapabilities>) {
        if !json.is_record(2) {
            return None;
        }
        match (
            read_optional::<RootsCapabilities>(json.field("roots", 0, 2)),
            read_optional::<SamplingCapabilities>(json.field("sampling", 1, 2)),
        ) {
            (Some(roots), Some(sampling)) => Some(ClientCapabilities { roots, sampling }),
            _ => None,
        }
    }
}

impl Capability for ServerCapabilities {
    open spec fn json(self) -> JsonView {
        JsonView::Object(
            Seq::empty()
                .push(("logging"@, capability::optional_json(self.logging)))
                .push(("prompts"@, capability::optional_json(self.prompts)))
                .push(("resources"@, capability::optional_json(self.resources)))
                .push(("tools"@, capability::optional_json(self.tools))),
        )
    }

    open spec fn of_json(json: JsonView) -> Option<ServerCapabilities> {
        if !json.is_record(4) {
            None
        } else {
            match (
                capability::optional_of_json::<LoggingCapabilities>(json.field("logging"@, 0, 4)),
                capability::optional_of_json::<PromptCapabilities>(json.field("prompts"@, 1, 4)),
                capability::optional_of_json::<ResourceCapabilities>(
                    json.field("resources"@, 2, 4),
                ),
                capability::optional_of_json::<ToolCapabilities>(json.field("tools"@, 3, 4)),
            ) {
                (Some(logging), Some(prompts), Some(resources), Some(tools)) => Some(
                    ServerCapabilities { logging, prompts, resources, tools },
                ),
                _ => None,
            }
        }
    }

    proof fn is_read_from_its_json(self) {
        broadcast use json::lookup_push;

        capability_names_differ();
        capability::optional_is_read_from_its_json(self.logging);
        capability::optional_is_read_from_its_json(self.prompts);
        capability::optional_is_read_from_its_json(self.resources);
        capability::optional_is_read_from_its_json(self.tools);
    }

    fn to_json(&self) -> (json: Json) {
        let mut members: Vec<(String, Json)> = Vec::new();
        push_member(&mut members, "logging", write_optional(&self.logging));
        push_member(&mut members, "prompts", write_optional(&self.prompts));
        push_member(&mut members, "resources", write_optional(&self.resources));
        push_member(&mut members, "tools", write_optional(&self.tools));
        assert(json::members_view(members@) =~= self.json()->Object_0);
        object(members)
    }

    fn from_json(json: &Json) -> (capabilities: Option<ServerCapabilities>) {
        if !json.is_record(4) {
            return None;
        }
        match (
            read_optional::<LoggingCapabilities>(json.field("logging", 0, 4)),
            read_optional::<PromptCapabilities>(json.field("prompts", 1, 4)),
            read_optional::<ResourceCapabilities>(json.field("resources", 2, 4)),
            read_optional::<ToolCapabilities>(json.field("tools", 3, 4)),
        ) {
            (Some(logging), Some(prompts), Some(resources), Some(tools)) => Some(
                ServerCapabilities { logging, prompts, resources, tools },
            ),
            _ => None,
        }
    }
}

/// The names of what a server can do are different names.
pub proof fn capability_names_differ()
    ensures
        "logging"@ != "prompts"@,
        "logging"@ != "resources"@,
        "logging"@ != "tools"@,
        "prompts"@ != "resources"@,
        "prompts"@ != "tools"@,
        "resources"@ != "tools"@,
{
    reveal_strlit("logging");
    reveal_strlit("prompts");
    reveal_strlit("resources");
    reveal_strlit("tools");
    assert("logging"@[0] != "prompts"@[0]);
    assert("logging"@.len() != "resources"@.len());
    assert("logging"@.len() != "tools"@.len());
    assert("prompts"@.len() != "resources"@.len());
    assert("prompts"@.len() != "tools"@.len());
    assert("resources"@.len() != "tools"@.len());
}

impl ServerCapabilities {
    /// Whether a capability is there, by its name.
    pub open spec fn names(self, capability: Seq<char>) -> bool {
        ||| capability == "logging"@ && self.logging is Some
        ||| capability == "prompts"@ && self.prompts is Some
        ||| capability == "resources"@ && self.resources is Some
        ||| capability == "tools"@ && self.tools is Some
    }

    /// Whether a capability is there, by its name.
    pub fn has(&self, capability: &str) -> (has: bool)
        ensures
            has == self.names(capability@),
    {
        proof {
            capability_names_differ();
        }
        if same_text(capability, "logging") {
            self.logging.is_some()
        } else if same_text(capability, "prompts") {
            self.prompts.is_some()
        } else if same_text(capability, "resources") {
            self.resources.is_some()
        } else if same_text(capability, "tools") {
            self.tools.is_some()
        } else {
            false
        }
    }
}

impl InfoView {
    /// Who a side is, as JSON.
    pub open spec fn json(self) -> JsonView {
        JsonView::Object(
            Seq::empty().push(("name"@, JsonView::Str(self.name))).push(
                ("version"@, JsonView::Str(self.version)),
            ),
        )
    }

    /// Who a side is, from JSON.
    pub open spec fn of_json(json: JsonView) -> Option<InfoView> {
        match (
            json::required_text(json.field("name"@, 0, 2)),
            json::required_text(json.field("version"@, 1, 2)),
        ) {
            (Some(name), Some(version)) => Some(InfoView { name, version }),
            _ => None,
        }
    }

    /// Who a side is, from a field that must hold it.
    pub open spec fn of_field(field: Option<JsonView>) -> Option<InfoView> {
        match field {
            Some(json) => InfoView::of_json(json),
            None => None,
        }
    }
}

/// Who a side is, is read from its own JSON.
pub proof fn info_is_read_from_its_json(info: InfoView)
    ensures
        InfoView::of_json(info.json()) == Some(info),
{
    broadcast use json::lookup_push;

    reveal_strlit("name");
    reveal_strlit("version");
    assert("name"@.len() != "version"@.len());
}

/// Who a side is, as JSON.
fn write_info(name: &str, version: &str) -> (json: Json)
    ensures
        json@ == (InfoView { name: name@, version: version@ }).json(),
{
    let mut members: Vec<(String, Json)> = Vec::new();
    push_member(&mut members, "name", Json::string(name));
    push_member(&mut members, "version", Json::string(version));
    assert(json::members_view(members@) =~= (InfoView {
        name: name@,
        version: version@,
    }).json()->Object_0);
    object(members)
}

/// Who a side is, from a field that must hold it: its name and its version.
fn read_info(field: Option<&Json>) -> (info: Option<(String, String)>)
    ensures
        match info {
            Some((name, version)) => InfoView::of_field(json::optional_ref_view(field)) == Some(
                InfoView { name: name@, version: version@ },
            ),
            None => InfoView::of_field(json::optional_ref_view(field)) is None,
        },
{
    match field {
        Some(json) => match (
            read_text(json.field("name", 0, 2)),
            read_text(json.field("version", 1, 2)),
        ) {
            (Some(name), Some(version)) => Some((name, version)),
            _ => None,
        },
        None => None,
    }
}

/// A capability from a field that must hold it.
pub open spec fn required_capability<C: Capability>(field: Option<JsonView>) -> Option<C> {
    match field {
        Some(json) => C::of_json(json),
        None => None,
    }
}

/// A capability from a field that must hold it.
fn read_required<C: Capability>(field: Option<&Json>) -> (capability: Option<C>)
    ensures
        capability == required_capability::<C>(json::optional_ref_view(field)),
{
    match field {
        Some(json) => C::from_json(json),
        None => None,
    }
}

impl ParamsView {
    /// What a client says of itself, as JSON.
    pub open spec fn json(self) -> JsonView {
        JsonView::Object(
            Seq::empty()
                .push(("protocol_version"@, JsonView::Str(self.protocol_version)))
                .push(("capabilities"@, self.capabilities.json()))
                .push(("client_info"@, self.client_info.json())),
        )
    }

    /// What a client says of itself, from JSON.
    pub open spec fn of_json(json: JsonView) -> Option<ParamsView> {
        match (
            json::required_text(json.field("protocol_version"@, 0, 3)),
            required_capability::<ClientCapabilities>(json.field("capabilities"@, 1, 3)),
            InfoView::of_field(json.field("client_info"@, 2, 3)),
        ) {
            (Some(protocol_version), Some(capabilities), Some(client_info)) => Some(
                ParamsView { protocol_version, capabilities, client_info },
            ),
            _ => None,
        }
    }
}

impl ResultView {
    /// What a server says of itself, as JSON.
    pub open spec fn json(self) -> JsonView {
        JsonView::Object(
            Seq::empty()
                .push(("protocol_version"@, JsonView::Str(self.protocol_version)))
                .push(("capabilities"@, self.capabilities.json()))
                .push(("server_info"@, self.server_info.json())),
        )
    }

    /// What a server says of itself, from JSON.
    pub open spec fn of_json(json: JsonView) -> Option<ResultView> {
        match (
            json::required_text(json.field("protocol_version"@, 0, 3)),
            required_capability::<ServerCapabilities>(json.field("capabilities"@, 1, 3)),
            InfoView::of_field(json.field("server_info"@, 2, 3)),
        ) {
            (Some(protocol_version), Some(capabilities), Some(server_info)) => Some(
                ResultView { protocol_version, capabilities, server_info },
            ),
            _ => None,
        }
    }
}

/// What a client says of itself is read from its own JSON.
pub proof fn params_are_read_from_their_json(params: ParamsView)
    ensures
        ParamsView::of_json(params.json()) == Some(params),
{
    broadcast use json::lookup_push;

    reveal_strlit("protocol_version");
    reveal_strlit("capabilities");
    reveal_strlit("client_info");
    assert("protocol_version"@.len() != "capabilities"@.len());
    assert("protocol_version"@.len() != "client_info"@.len());
    assert("capabilities"@.len() != "client_info"@.len());
    params.capabilities.is_read_from_its_json();
    info_is_read_from_its_json(params.client_info);
}

/// What a server says of itself is read from its own JSON.
pub proof fn result_is_read_from_its_json(result: ResultView)
    ensures
        ResultView::of_json(result.json()) == Some(result),
{
    broadcast use json::lookup_push;

    reveal_strlit("protocol_version");
    reveal_strlit("capabilities");
    reveal_strlit("server_info");
    assert("protocol_version"@.len() != "capabilities"@.len());
    assert("protocol_version"@.len() != "server_info"@.len());
    assert("capabilities"@.len() != "server_info"@.len());
    result.capabilities.is_read_from_its_json();
    info_is_read_from_its_json(result.server_info);
}

impl InitializeParams {
    /// What the client says of itself, as JSON.
    pub fn to_json(&self) -> (json: Json)
        ensures
            json@ == self@.json(),
    {
        let mut members: Vec<(String, Json)> = Vec::new();
        push_member(
            &mut members,
            "protocol_version",
            Json::string(self.protocol_version.as_str()),
        );
        push_member(&mut members, "capabilities", self.capabilities.to_json());
        push_member(
            &mut members,
            "client_info",
            write_info(self.client_info.name.as_str(), self.client_info.version.as_str()),
        );
        assert(json::members_view(members@) =~= self@.json()->Object_0);
        object(members)
    }

    /// What a client says of itself, from JSON.
    pub fn from_json(json: &Json) -> (params: Option<InitializeParams>)
        ensures
            match params {
                Some(params) => ParamsView::of_json(json@) == Some(params@),
                None => ParamsView::of_json(json@) is None,
            },
    {
        match (
            read_text(json.field("protocol_version", 0, 3)),
            read_required::<ClientCapabilities>(json.field("capabilities", 1, 3)),
            read_info(json.field("client_info", 2, 3)),
        ) {
            (Some(protocol_version), Some(capabilities), Some((name, version))) => Some(
                InitializeParams {
                    protocol_version,
                    capabilities,
                    client_info: ClientInfo { name, version },
                },
            ),
            _ => None,
        }
    }
}

impl InitializeResult {
    /// What the server says of itself, as JSON.
    pub fn to_json(&self) -> (json: Json)
        ensures
            json@ == self@.json(),
    {
        let mut members: Vec<(String, Json)> = Vec::new();
        push_member(
            &mut members,
            "protocol_version",
            Json::string(self.protocol_version.as_str()),
        );
        push_member(&mut members, "capabilities", self.capabilities.to_json());
        push_member(
            &mut members,
            "server_info",
            write_info(self.server_info.name.as_str(), self.server_info.version.as_str()),
        );
        assert(json::members_view(members@) =~= self@.json()->Object_0);
        object(members)
    }

    /// What a server says of itself, from JSON.
    pub fn from_json(json: &Json) -> (result: Option<InitializeResult>)
        ensures
            match result {
                Some(result) => ResultView::of_json(json@) == Some(result@),
                None => ResultView::of_json(json@) is None,
            },
    {
        match (
            read_text(json.field("protocol_version", 0, 3)),
            read_required::<ServerCapabilities>(json.field("capabilities", 1, 3)),
            read_info(json.field("server_info", 2, 3)),
        ) {
            (Some(protocol_version), Some(capabilities), Some((name, version))) => Some(
                InitializeResult {
                    protocol_version,
                    capabilities,
                    server_info: ServerInfo { name, version },
                },
            ),
            _ => None,
        }
    }
}

} // verus!
