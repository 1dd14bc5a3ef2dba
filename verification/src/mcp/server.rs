use crate::environment::handle::{current_time, EnvironmentHandle, Timestamp};
use crate::environment::registry::{is_snapshot, EnvironmentRegistry, RegistryView};
use crate::json::{json_parse, json_text, opt_value, Json, JsonValue};
use crate::mcp::handlers::{
    initialize_result, opt_pending, pending_create, pending_run, spec_create_advance,
    spec_create_begin, spec_run_advance, spec_run_begin, unimplemented_error,
    CreateEnvironmentHandler, Handler, InitializeHandler, Pending, PendingView, RunCommandHandler,
    Step, StepView, UnimplementedHandler,
};
use crate::mcp::types::{
    error_response, not_found_message, plain_error, response_value, spec_request,
    success_response, ErrorView, McpError, McpRequest, McpResponse, RequestView, ResponseView,
};
use crate::podman::engine::{EngineCall, EngineCallView, EngineReply, EngineReplyView};
use crate::mcp::transport::TransportError;
use crate::text::{join2, text_eq};
use vstd::prelude::*;
use vstd::string::StringExecFns;

verus! {

/// Server state that the handlers share.
pub struct ServerState {
    /// Environment registry for managing container environments.
    pub registry: EnvironmentRegistry,
}

impl ServerState {
    /// A state with an empty registry.
    pub fn new() -> (r: Self)
        ensures
            r.registry@ == RegistryView::empty(),
    {
        ServerState { registry: EnvironmentRegistry::new() }
    }
}

impl Default for ServerState {
    fn default() -> (r: Self)
        ensures
            r.registry@ == RegistryView::empty(),
    {
        Self::new()
    }
}

/// The handler that a method name leads to.
#[derive(Clone, Copy, Debug, PartialEq, Eq, Structural)]
pub enum Route {
    Initialize,
    CreateEnvironment,
    RunCommand,
    /// The method is known and not built yet.
    Unimplemented,
}

/// The routing table: the handler of each method name that has one.
pub open spec fn spec_route(method: Seq<char>) -> Option<Route> {
    if method == "initialize"@ {
        Some(Route::Initialize)
    } else if method == "create_environment"@ {
        Some(Route::CreateEnvironment)
    } else if method == "run_command"@ {
        Some(Route::RunCommand)
    } else if method == "watch-commit"@ || method == "note-append"@ || method == "up"@ || method
        == "down"@ {
        Some(Route::Unimplemented)
    } else {
        None
    }
}

/// Looks a method name up in the routing table.
pub fn route(method: &str) -> (r: Option<Route>)
    ensures
        r == spec_route(method@),
{
    if text_eq(method, "initialize") {
        Some(Route::Initialize)
    } else if text_eq(method, "create_environment") {
        Some(Route::CreateEnvironment)
    } else if text_eq(method, "run_command") {
        Some(Route::RunCommand)
    } else if text_eq(method, "watch-commit") || text_eq(method, "note-append") || text_eq(
        method,
        "up",
    ) || text_eq(method, "down") {
        Some(Route::Unimplemented)
    } else {
        None
    }
}

/// The request that is being processed: its correlation id and its flow.
pub struct InFlight {
    pub id: Option<Json>,
    pub flow: Pending,
}

/// The mathematical counterpart of [`InFlight`].
pub struct InFlightView {
    pub id: Option<JsonValue>,
    pub flow: PendingView,
}

impl View for InFlight {
    type V = InFlightView;

    open spec fn view(&self) -> InFlightView {
        InFlightView {
            id: opt_value(self.id),
            flow: self.flow@,
        }
    }
}

/// What the server wants next: a response sent, or a piece of work done
/// whose reply it then takes up with `resume`.
#[derive(Debug)]
pub enum Turn {
    Respond(McpResponse),
    Perform(EngineCall),
}

/// The mathematical counterpart of [`Turn`].
pub enum TurnView {
    Respond(ResponseView),
    Perform(EngineCallView),
}

impl View for Turn {
    type V = TurnView;

    open spec fn view(&self) -> TurnView {
        match self {
            Turn::Respond(response) => TurnView::Respond(response@),
            Turn::Perform(call) => TurnView::Perform(call@),
        }
    }
}

/// What the server holds: the registry and the request in progress.
pub struct ServerView {
    pub registry: RegistryView,
    pub pending: Option<InFlightView>,
}

/// The outcome of one call of the server: what it wants next and what it
/// holds afterwards.
pub struct Outcome {
    pub turn: TurnView,
    pub server: ServerView,
}

/// The response that ends an exchange, echoing the request's id.
pub open spec fn respond(id: Option<JsonValue>, result: Result<JsonValue, ErrorView>) -> TurnView {
    match result {
        Ok(doc) => TurnView::Respond(success_response(id, doc)),
        Err(e) => TurnView::Respond(error_response(id, e)),
    }
}

/// A refusal that ends an exchange.
pub open spec fn refuse(id: Option<JsonValue>, code: int, message: Seq<char>) -> TurnView {
    TurnView::Respond(error_response(id, plain_error(code, message)))
}

/// What a handler's step means for the server: a finished exchange is
/// answered and nothing stays pending; work that is asked for is passed on and
/// the flow stays pending under the request's id.
pub open spec fn settle(
    id: Option<JsonValue>,
    step: StepView,
    flow: Option<PendingView>,
    registry: RegistryView,
) -> Outcome {
    match step {
        StepView::Finish(result) => Outcome {
            turn: respond(id, result),
            server: ServerView { registry, pending: None },
        },
        StepView::Perform(call) => Outcome {
            turn: TurnView::Perform(call),
            server: ServerView {
                registry,
                pending: match flow {
                    Some(flow) => Some(InFlightView { id, flow }),
                    None => None,
                },
            },
        },
    }
}

/// Dispatching a request that was read as a well-formed envelope.
pub open spec fn spec_dispatch_request(request: RequestView, registry: RegistryView) -> Outcome {
    let idle = ServerView { registry, pending: None };
    if request.jsonrpc != "2.0"@ {
        Outcome { turn: refuse(request.id, -32600, "Invalid JSON-RPC version"@), server: idle }
    } else {
        match spec_route(request.method) {
            None => Outcome {
                turn: refuse(request.id, -32601, not_found_message(request.method)),
                server: idle,
            },
            Some(Route::Initialize) => Outcome {
                turn: respond(request.id, Ok(initialize_result())),
                server: idle,
            },
            Some(Route::Unimplemented) => Outcome {
                turn: respond(request.id, Err(unimplemented_error(request.method))),
                server: idle,
            },
            Some(Route::CreateEnvironment) => {
                let (flow, step) = spec_create_begin(request.params);
                settle(request.id, step, pending_create(flow), registry)
            },
            Some(Route::RunCommand) => {
                let (flow, step) = spec_run_begin(request.params, registry);
                settle(request.id, step, pending_run(flow), registry)
            },
        }
    }
}

/// Dispatching what the parser made of a payload.
///
/// A payload that is no JSON, or no request envelope, is answered with an
/// invalid-request error and a null id. A request that arrives while another
/// is in progress is refused as invalid under its own id, and the other stays
/// in progress.
pub open spec fn spec_dispatch(parsed: Result<JsonValue, Seq<char>>, server: ServerView) -> Outcome {
    match parsed {
        Err(reason) => Outcome { turn: refuse(None, -32600, "Invalid JSON: "@ + reason), server },
        Ok(doc) => match spec_request(doc) {
            None => Outcome {
                turn: refuse(None, -32600, "Invalid JSON: not a request envelope"@),
                server,
            },
            Some(request) => if server.pending.is_some() {
                Outcome {
                    turn: refuse(request.id, -32600, "A request is still in progress"@),
                    server,
                }
            } else {
                spec_dispatch_request(request, server.registry)
            },
        },
    }
}

/// Taking up the reply to the work that the pending flow asked for.
pub open spec fn spec_resume(reply: EngineReplyView, server: ServerView, now: Timestamp) -> Outcome {
    match server.pending {
        None => Outcome { turn: refuse(None, -32603, "No request is in progress"@), server },
        Some(in_flight) => match in_flight.flow {
            PendingView::Create(flow) => {
                let turn = spec_create_advance(flow, reply, server.registry, now);
                settle(in_flight.id, turn.step, pending_create(turn.flow), turn.registry)
            },
            PendingView::Run(flow) => {
                let (next, step) = spec_run_advance(flow, reply, now);
                settle(in_flight.id, step, pending_run(next), server.registry)
            },
        },
    }
}

/// MCP server: handles JSON-RPC requests one at a time and keeps the
/// environments they create.
pub struct McpServer {
    state: ServerState,
    pending: Option<InFlight>,
}

impl View for McpServer {
    type V = ServerView;

    closed spec fn view(&self) -> ServerView {
        ServerView {
            registry: self.state.registry@,
            pending: match self.pending {
                Some(in_flight) => Some(in_flight@),
                None => None,
            },
        }
    }
}

fn answer(id: Option<Json>, result: Result<Json, McpError>) -> (turn: Turn)
    ensures
        turn@ == respond(
            opt_value(id),
            match result {
                Ok(doc) => Ok(doc@),
                Err(e) => Err(e@),
            },
        ),
{
    match result {
        Ok(doc) => Turn::Respond(McpResponse::success(id, doc)),
        Err(e) => Turn::Respond(McpResponse::failure(id, e)),
    }
}

impl McpServer {
    /// Create a new MCP server: no environment, no request in progress.
    pub fn new() -> (server: Self)
        ensures
            server@ == (ServerView { registry: RegistryView::empty(), pending: None }),
    {
        McpServer { state: ServerState::new(), pending: None }
    }

    /// The registry of the server.
    pub fn registry(&self) -> (r: &EnvironmentRegistry)
        ensures
            r@ == self@.registry,
    {
        &self.state.registry
    }

    /// Tells whether a request is in progress.
    pub fn is_busy(&self) -> (r: bool)
        ensures
            r == self@.pending.is_some(),
    {
        self.pending.is_some()
    }

    /// Tells whether the routing table has a handler for a method.
    pub fn has_method(&self, method: &str) -> (r: bool)
        ensures
            r == spec_route(method@).is_some(),
    {
        route(method).is_some()
    }

    fn settle_step(&mut self, id: Option<Json>, step: Step, flow: Option<Pending>) -> (turn: Turn)
        requires
            step is Perform ==> flow.is_some(),
        ensures
            (Outcome { turn: turn@, server: final(self)@ }) == settle(
                opt_value(id),
                step@,
                opt_pending(flow),
                old(self)@.registry,
            ),
    {
        match step {
            Step::Finish(result) => {
                self.pending = None;
                answer(id, result)
            },
            Step::Perform(call) => {
                self.pending = match flow {
                    Some(flow) => Some(InFlight { id, flow }),
                    None => None,
                };
                Turn::Perform(call)
            },
        }
    }

    fn dispatch_request(&mut self, request: McpRequest) -> (turn: Turn)
        requires
            old(self)@.pending.is_none(),
        ensures
            (Outcome { turn: turn@, server: final(self)@ }) == spec_dispatch_request(
                request@,
                old(self)@.registry,
            ),
    {
        if !text_eq(request.jsonrpc.as_str(), "2.0") {
            return Turn::Respond(
                McpResponse::failure(request.id, McpError::invalid_request("Invalid JSON-RPC version")),
            );
        }
        match route(request.method.as_str()) {
            None => Turn::Respond(
                McpResponse::failure(
                    request.id,
                    McpError::method_not_found(request.method.as_str()),
                ),
            ),
            Some(Route::Initialize) => {
                let (flow, step) = InitializeHandler.handle(&request, &self.state);
                self.settle_step(request.id, step, flow)
            },
            Some(Route::Unimplemented) => {
                let handler = UnimplementedHandler { method: request.method.clone() };
                let (flow, step) = handler.handle(&request, &self.state);
                self.settle_step(request.id, step, flow)
            },
            Some(Route::CreateEnvironment) => {
                let (flow, step) = CreateEnvironmentHandler.handle(&request, &self.state);
                self.settle_step(request.id, step, flow)
            },
            Some(Route::RunCommand) => {
                let (flow, step) = RunCommandHandler.handle(&request, &self.state);
                self.settle_step(request.id, step, flow)
            },
        }
    }

    /// Dispatches what the parser made of a payload: validates the
    /// envelope, routes by method name and runs the handler up to the first
    /// piece of outside work.
    pub fn dispatch(&mut self, parsed: Result<Json, String>) -> (turn: Turn)
        ensures
            (Outcome { turn: turn@, server: final(self)@ }) == spec_dispatch(
                match parsed {
                    Ok(doc) => Ok(doc@),
                    Err(reason) => Err(reason@),
                },
                old(self)@,
            ),
    {
        let doc = match parsed {
            Ok(doc) => doc,
            Err(reason) => {
                let message = join2("Invalid JSON: ", reason.as_str());
                return Turn::Respond(
                    McpResponse::failure(None, McpError::invalid_request(message.as_str())),
                );
            },
        };
        match McpRequest::from_json(&doc) {
            Some(request) => {
                if self.pending.is_some() {
                    Turn::Respond(
                        McpResponse::failure(
                            request.id,
                            McpError::invalid_request("A request is still in progress"),
                        ),
                    )
                } else {
                    self.dispatch_request(request)
                }
            },
            None => Turn::Respond(
                McpResponse::failure(
                    None,
                    McpError::invalid_request("Invalid JSON: not a request envelope"),
                ),
            ),
        }
    }

    /// Handle a single JSON-RPC request: parses the payload and dispatches
    /// it.
    pub fn handle_request(&mut self, input: &str) -> (turn: Turn)
        ensures
            (Outcome { turn: turn@, server: final(self)@ }) == spec_dispatch(
                json_parse(input@),
                old(self)@,
            ),
    {
        self.dispatch(Json::parse(input))
    }

    /// Takes up the reply to the work that was asked for last, with `now`
    /// as the current time.
    pub fn resume_at(&mut self, reply: EngineReply, now: Timestamp) -> (turn: Turn)
        ensures
            (Outcome { turn: turn@, server: final(self)@ }) == spec_resume(reply@, old(self)@, now),
    {
        match self.pending.take() {
            None => Turn::Respond(
                McpResponse::failure(None, McpError::internal_error("No request is in progress")),
            ),
            Some(InFlight { id, flow }) => match flow {
                Pending::Create(flow) => {
                    let (next, step) = flow.advance_at(reply, &mut self.state.registry, now);
                    let pending = match next {
                        Some(flow) => Some(Pending::Create(flow)),
                        None => None,
                    };
                    self.settle_step(id, step, pending)
                },
                Pending::Run(flow) => {
                    let (next, step) = flow.advance_at(reply, now);
                    let pending = match next {
                        Some(flow) => Some(Pending::Run(flow)),
                        None => None,
                    };
                    self.settle_step(id, step, pending)
                },
            },
        }
    }

    /// Takes up the reply to the work that was asked for last. What is
    /// stamped with a time is stamped with the current one.
    pub fn resume(&mut self, reply: EngineReply) -> (turn: Turn)
        ensures
            exists|now: Timestamp|
                (Outcome { turn: turn@, server: final(self)@ }) == #[trigger] spec_resume(
                    reply@,
                    old(self)@,
                    now,
                ),
    {
        let now = current_time();
        self.resume_at(reply, now)
    }

    /// Shuts the server down: the registry is cleared in one step and the
    /// removed handles are handed back for cleanup; no container is torn
    /// down here. A request in progress is dropped.
    pub fn shutdown(&mut self) -> (removed: Vec<EnvironmentHandle>)
        ensures
            final(self)@ == (ServerView { registry: RegistryView::empty(), pending: None }),
            is_snapshot(removed@, old(self)@.registry),
    {
        self.pending = None;
        self.state.registry.clear()
    }
}

/// The payload that carries a response.
pub open spec fn response_text(response: ResponseView) -> Seq<char> {
    json_text(response_value(response))
}

impl McpResponse {
    /// The response as the JSON text that goes on the wire.
    pub fn to_text(&self) -> (text: String)
        ensures
            text@ == response_text(self@),
    {
        self.to_json().render()
    }
}

/// What the serving loop does after an attempt to read a message.
#[derive(Debug, PartialEq, Eq)]
pub enum LoopAction {
    /// Leave the loop: shutdown was asked for, or the stream has ended.
    Stop,
    /// The frame was bad: drop it and read the next message.
    Skip,
    /// Process this payload to completion, then read the next message.
    Process(String),
}

/// The mathematical counterpart of [`LoopAction`].
pub enum LoopActionView {
    Stop,
    Skip,
    Process(Seq<char>),
}

impl View for LoopAction {
    type V = LoopActionView;

    open spec fn view(&self) -> LoopActionView {
        match self {
            LoopAction::Stop => LoopActionView::Stop,
            LoopAction::Skip => LoopActionView::Skip,
            LoopAction::Process(payload) => LoopActionView::Process(payload@),
        }
    }
}

/// The serving loop's decision: a shutdown that was asked for stops the
/// loop whatever was read; a clean end of the stream stops it; a bad frame or
/// a read that failed is skipped and the session goes on; a message is
/// processed.
pub open spec fn spec_after_read(
    shutdown: bool,
    read: Result<Option<Seq<char>>, TransportError>,
) -> LoopActionView {
    if shutdown {
        LoopActionView::Stop
    } else {
        match read {
            Ok(Some(payload)) => LoopActionView::Process(payload),
            Ok(None) => LoopActionView::Stop,
            Err(_) => LoopActionView::Skip,
        }
    }
}

/// Decides what the serving loop does after an attempt to read a
/// message.
pub fn after_read(shutdown: bool, read: Result<Option<String>, TransportError>) -> (action:
    LoopAction)
    ensures
        action@ == spec_after_read(
            shutdown,
            match read {
                Ok(Some(payload)) => Ok(Some(payload@)),
                Ok(None) => Ok(None),
                Err(e) => Err(e),
            },
        ),
{
    if shutdown {
        LoopAction::Stop
    } else {
        match read {
            Ok(Some(payload)) => LoopAction::Process(payload),
            Ok(None) => LoopAction::Stop,
            Err(_) => LoopAction::Skip,
        }
    }
}

} // verus!
