use crate::environment::handle::{status_text, StatusView};
use crate::environment::registry::RegistryView;
use crate::json::{value_get_str, JsonValue};
use crate::mcp::handlers::{not_running_message, unimplemented_error};
use crate::mcp::params::{spec_create_params, spec_run_params};
use crate::environment::handle::Timestamp;
use crate::mcp::server::{
    spec_dispatch, spec_dispatch_request, spec_resume, spec_route, Outcome, Route, ServerView,
    TurnView,
};
use crate::podman::engine::EngineReplyView;
use crate::mcp::types::{spec_request, ErrorView, RequestView};
use vstd::prelude::*;

verus! {

/// The error that a turn answers with, if it answers with one.
pub open spec fn turn_error(turn: TurnView) -> Option<ErrorView> {
    match turn {
        TurnView::Respond(response) => response.error,
        TurnView::Perform(_) => None,
    }
}

/// The id that a turn answers under, if it answers.
pub open spec fn turn_id(turn: TurnView) -> Option<Option<JsonValue>> {
    match turn {
        TurnView::Respond(response) => Some(response.id),
        TurnView::Perform(_) => None,
    }
}

/// A text occurs somewhere inside another.
pub open spec fn contains_text(text: Seq<char>, part: Seq<char>) -> bool {
    exists|at: int| 0 <= at && at + part.len() <= text.len() && #[trigger] text.subrange(
        at,
        at + part.len(),
    ) == part
}

/// A server that holds `registry` and has no request in progress.
pub open spec fn idle(registry: RegistryView) -> ServerView {
    ServerView { registry, pending: None }
}

/// A payload that is no JSON, or no request envelope, is answered with
/// -32600 under a null id, whatever the server holds, and the server stays as
/// it was.
pub proof fn lemma_invalid_payload(parsed: Result<JsonValue, Seq<char>>, server: ServerView)
    requires
        parsed is Err || spec_request(parsed->Ok_0).is_none(),
    ensures
        turn_error(spec_dispatch(parsed, server).turn) matches Some(e) && e.code == -32600,
        turn_id(spec_dispatch(parsed, server).turn) == Some(None::<JsonValue>),
        spec_dispatch(parsed, server).server == server,
{
}

/// A request that arrives while another is in progress is refused with
/// -32600 under its own id, and the server stays as it was: the request in
/// progress goes on.
pub proof fn lemma_busy_server_refuses(doc: JsonValue, server: ServerView)
    requires
        spec_request(doc).is_some(),
        server.pending.is_some(),
    ensures
        turn_error(spec_dispatch(Ok(doc), server).turn) matches Some(e) && e.code == -32600,
        turn_id(spec_dispatch(Ok(doc), server).turn) == Some(spec_request(doc)->0.id),
        spec_dispatch(Ok(doc), server).server == server,
{
}

/// An idle server handles a well-formed envelope as its dispatcher says.
pub proof fn lemma_idle_server_dispatches(doc: JsonValue, registry: RegistryView)
    requires
        spec_request(doc).is_some(),
    ensures
        spec_dispatch(Ok(doc), idle(registry)) == spec_dispatch_request(
            spec_request(doc)->0,
            registry,
        ),
{
}

/// Every response to a payload echoes the id of the request it answers, or
/// null where the payload holds no request; work that is asked for is kept
/// under the id of its request.
pub proof fn lemma_response_echoes_id(parsed: Result<JsonValue, Seq<char>>, server: ServerView)
    ensures
        spec_dispatch(parsed, server).turn is Respond ==> turn_id(
            spec_dispatch(parsed, server).turn,
        ) == Some(
            match parsed {
                Ok(doc) => match spec_request(doc) {
                    Some(request) => request.id,
                    None => None,
                },
                Err(_) => None,
            },
        ),
{
    if let Ok(doc) = parsed {
        if let Some(request) = spec_request(doc) {
            if server.pending.is_none() {
                lemma_dispatch_echoes_id(request, server.registry);
            }
        }
    }
}

/// A request with a wrong protocol-version tag is answered with -32600
/// under the request's id.
pub proof fn lemma_wrong_version(request: RequestView, registry: RegistryView)
    requires
        request.jsonrpc != "2.0"@,
    ensures
        turn_error(spec_dispatch_request(request, registry).turn) matches Some(e) && e.code
            == -32600,
        turn_id(spec_dispatch_request(request, registry).turn) == Some(request.id),
        spec_dispatch_request(request, registry).server == idle(registry),
{
}

/// A method without a handler is answered with -32601.
pub proof fn lemma_unknown_method(request: RequestView, registry: RegistryView)
    requires
        request.jsonrpc == "2.0"@,
        spec_route(request.method).is_none(),
    ensures
        turn_error(spec_dispatch_request(request, registry).turn) matches Some(e) && e.code
            == -32601,
        turn_id(spec_dispatch_request(request, registry).turn) == Some(request.id),
        spec_dispatch_request(request, registry).server == idle(registry),
{
}

/// A method that is registered and not built is answered with -32601 and a
/// message that says "unimplemented".
pub proof fn lemma_unimplemented_method(request: RequestView, registry: RegistryView)
    requires
        request.jsonrpc == "2.0"@,
        spec_route(request.method) == Some(Route::Unimplemented),
    ensures
        turn_error(spec_dispatch_request(request, registry).turn) matches Some(e) && e.code
            == -32601 && contains_text(e.message, "unimplemented"@),
        turn_id(spec_dispatch_request(request, registry).turn) == Some(request.id),
{
    let message = unimplemented_error(request.method).message;
    let head = "Method '"@ + request.method;
    reveal_strlit("' is unimplemented");
    reveal_strlit("unimplemented");
    let at = head.len() as int + 5;
    assert(message.subrange(at, at + "unimplemented"@.len() as int) =~= "unimplemented"@);
}

/// `create_environment` without a string `env_id`, `project_root` or
/// `image` is answered with -32602, and nothing is asked of a
/// collaborator.
pub proof fn lemma_create_missing_param(request: RequestView, registry: RegistryView)
    requires
        request.jsonrpc == "2.0"@,
        request.method == "create_environment"@,
        request.params matches Some(p) ==> value_get_str(p, "env_id"@).is_none() || value_get_str(
            p,
            "project_root"@,
        ).is_none() || value_get_str(p, "image"@).is_none(),
    ensures
        turn_error(spec_dispatch_request(request, registry).turn) matches Some(e) && e.code
            == -32602,
        turn_id(spec_dispatch_request(request, registry).turn) == Some(request.id),
        spec_dispatch_request(request, registry).server == idle(registry),
{
    reveal_strlit("create_environment");
    reveal_strlit("initialize");
    assert(spec_create_params(request.params) is Err);
}

/// `run_command` against an environment that is registered and not
/// running is answered with an error whose message names the status the
/// environment has.
pub proof fn lemma_run_not_running(request: RequestView, registry: RegistryView)
    requires
        request.jsonrpc == "2.0"@,
        request.method == "run_command"@,
        spec_run_params(request.params) matches Ok(p) && registry.contains_key(p.env_id)
            && registry[p.env_id].status != StatusView::Running,
    ensures
        turn_error(spec_dispatch_request(request, registry).turn) matches Some(e) && e.code
            == -32600 && contains_text(
            e.message,
            status_text(registry[spec_run_params(request.params)->Ok_0.env_id].status),
        ),
        spec_dispatch_request(request, registry).server == idle(registry),
{
    reveal_strlit("run_command");
    reveal_strlit("initialize");
    reveal_strlit("create_environment");
    let p = spec_run_params(request.params)->Ok_0;
    let status = registry[p.env_id].status;
    let head = "Environment '"@ + p.env_id + "' is not running (status: "@;
    let message = not_running_message(p.env_id, status);
    let at = head.len() as int;
    assert(message.subrange(at, at + status_text(status).len() as int) =~= status_text(status));
}

/// The id under which an outcome stands: that of the response, or that of
/// the request that stays in progress.
pub open spec fn outcome_id(outcome: Outcome) -> Option<Option<JsonValue>> {
    match outcome.turn {
        TurnView::Respond(response) => Some(response.id),
        TurnView::Perform(_) => match outcome.server.pending {
            Some(in_flight) => Some(in_flight.id),
            None => None,
        },
    }
}

/// Whatever becomes of a request, it stands under the request's own id:
/// the response echoes it, and work that is asked for is kept under it. The
/// registry is as it was, and a request stays in progress exactly when work
/// is asked for.
pub proof fn lemma_dispatch_echoes_id(request: RequestView, registry: RegistryView)
    ensures
        outcome_id(spec_dispatch_request(request, registry)) == Some(request.id),
        spec_dispatch_request(request, registry).server.registry == registry,
        spec_dispatch_request(request, registry).server.pending.is_some() == (spec_dispatch_request(
            request,
            registry,
        ).turn is Perform),
{
}

/// Whatever the payload, dispatching it leaves the registry as it was.
pub proof fn lemma_dispatch_keeps_registry(parsed: Result<JsonValue, Seq<char>>, server: ServerView)
    ensures
        spec_dispatch(parsed, server).server.registry == server.registry,
{
    if let Ok(doc) = parsed {
        if let Some(request) = spec_request(doc) {
            if server.pending.is_none() {
                lemma_dispatch_echoes_id(request, server.registry);
            }
        }
    }
}

/// The response that ends a request in progress echoes the id of that
/// request, and work that is asked for next is kept under it.
pub proof fn lemma_resume_echoes_id(reply: EngineReplyView, server: ServerView, now: Timestamp)
    requires
        server.pending.is_some(),
    ensures
        outcome_id(spec_resume(reply, server, now)) == Some(server.pending->0.id),
        spec_resume(reply, server, now).server.pending.is_some() == (spec_resume(
            reply,
            server,
            now,
        ).turn is Perform),
{
}

} // verus!
