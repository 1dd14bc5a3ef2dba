use crate::environment::handle::{StatusView, Timestamp};
use crate::environment::registry::RegistryView;
use crate::json::{value_get, JsonValue};
use crate::mcp::dispatch_laws::contains_text;
use crate::mcp::handlers::{
    create_result, running_handle, spec_create_advance, CreateFlowView, CreateStageView, StepView,
};
use crate::podman::engine::{EngineCallView, EngineReplyView};
use vstd::prelude::*;

verus! {

/// What a step ends the exchange with, if it ends it with an error.
pub open spec fn step_error_code(step: StepView) -> Option<int> {
    match step {
        StepView::Finish(Err(e)) => Some(e.code),
        _ => None,
    }
}

/// Conflict: a creation under an id that is registered is refused with
/// -32602 and a message that says "already exists", before anything is asked
/// of the container engine, and the registry stays as it was.
pub proof fn lemma_create_refuses_taken_id(
    flow: CreateFlowView,
    registry: RegistryView,
    now: Timestamp,
)
    requires
        flow.stage is CheckingPath,
        registry.contains_key(flow.params.env_id),
    ensures
        ({
            let turn = spec_create_advance(flow, EngineReplyView::Exists(true), registry, now);
            &&& turn.flow.is_none()
            &&& turn.registry == registry
            &&& turn.step matches StepView::Finish(Err(e)) && e.code == -32602 && contains_text(
                e.message,
                "already exists"@,
            )
        }),
{
    let head = "Environment '"@ + flow.params.env_id;
    let message = head + "' already exists"@;
    reveal_strlit("' already exists");
    reveal_strlit("already exists");
    let at = head.len() as int + 2;
    assert(message.subrange(at, at + "already exists"@.len() as int) =~= "already exists"@);
}

/// Conflict at registration: where the id was free at the first lookup and
/// is taken when the container has started, the registry refuses the handle,
/// the creation ends with -32602 and a message that says "already exists",
/// and the registry keeps the handle that was registered first.
pub proof fn lemma_create_refuses_id_taken_meanwhile(
    flow: CreateFlowView,
    container_id: Seq<char>,
    registry: RegistryView,
    now: Timestamp,
)
    requires
        flow.stage == (CreateStageView::StartingContainer { container_id }),
        registry.contains_key(flow.params.env_id),
    ensures
        ({
            let turn = spec_create_advance(flow, EngineReplyView::Done, registry, now);
            &&& turn.flow.is_none()
            &&& turn.registry == registry
            &&& turn.step matches StepView::Finish(Err(e)) && e.code == -32602 && contains_text(
                e.message,
                "already exists"@,
            )
        }),
{
    let head = "Environment '"@ + flow.params.env_id;
    let message = head + "' already exists"@;
    reveal_strlit("' already exists");
    reveal_strlit("already exists");
    let at = head.len() as int + 2;
    assert(message.subrange(at, at + "already exists"@.len() as int) =~= "already exists"@);
}

/// Validation: a project root that does not exist ends the creation with
/// -32602; nothing is asked of the container engine and the registry stays as
/// it was.
pub proof fn lemma_create_refuses_missing_root(
    flow: CreateFlowView,
    registry: RegistryView,
    now: Timestamp,
)
    requires
        flow.stage is CheckingPath,
    ensures
        ({
            let turn = spec_create_advance(flow, EngineReplyView::Exists(false), registry, now);
            &&& turn.flow.is_none()
            &&& turn.registry == registry
            &&& step_error_code(turn.step) == Some(-32602int)
        }),
{
}

/// Completion: when the container of a free id has started, the
/// environment is registered as running under its id and with its container,
/// and the result reports the id and the status `running`.
pub proof fn lemma_create_registers_running(
    flow: CreateFlowView,
    container_id: Seq<char>,
    registry: RegistryView,
    now: Timestamp,
)
    requires
        flow.stage == (CreateStageView::StartingContainer { container_id }),
        !registry.contains_key(flow.params.env_id),
    ensures
        ({
            let turn = spec_create_advance(flow, EngineReplyView::Done, registry, now);
            &&& turn.flow.is_none()
            &&& turn.registry == registry.insert(
                flow.params.env_id,
                running_handle(flow.params, container_id, now),
            )
            &&& turn.registry[flow.params.env_id].status == StatusView::Running
            &&& turn.step matches StepView::Finish(Ok(doc)) && value_get(doc, "env_id"@) == Some(
                JsonValue::Str(flow.params.env_id),
            ) && value_get(doc, "status"@) == Some(JsonValue::Str("running"@))
        }),
{
    reveal_strlit("env_id");
    reveal_strlit("container_id");
    reveal_strlit("project_root");
    reveal_strlit("mount_path");
    reveal_strlit("status");
    reveal_strlit("created_at");
    reveal_strlit("env_vars");
    reveal_strlit("ports");
    let doc = create_result(flow.params, container_id, now);
    assert("env_id"@ != "container_id"@) by {
        assert("env_id"@[0] != "container_id"@[0]);
    }
    assert("env_id"@ != "project_root"@) by {
        assert("env_id"@[0] != "project_root"@[0]);
    }
    assert("env_id"@ != "mount_path"@) by {
        assert("env_id"@[0] != "mount_path"@[0]);
    }
    assert("env_id"@ != "status"@) by {
        assert("env_id"@[0] != "status"@[0]);
    }
    assert("env_id"@ != "created_at"@) by {
        assert("env_id"@[0] != "created_at"@[0]);
    }
    assert("env_id"@ != "env_vars"@) by {
        assert("env_id"@[4] != "env_vars"@[4]);
    }
    assert("env_id"@ != "ports"@) by {
        assert("env_id"@[0] != "ports"@[0]);
    }
    assert("status"@ != "created_at"@) by {
        assert("status"@[0] != "created_at"@[0]);
    }
    assert("status"@ != "env_vars"@) by {
        assert("status"@[0] != "env_vars"@[0]);
    }
    assert("status"@ != "ports"@) by {
        assert("status"@[0] != "ports"@[0]);
    }
}

/// Compensation: where the start fails after the container was created,
/// the next step removes that container by force, the step after it reports
/// the failure of the start as -32603 whatever came of the removal, and the
/// registry stays as it was throughout.
pub proof fn lemma_start_failure_is_compensated(
    flow: CreateFlowView,
    container_id: Seq<char>,
    reason: Seq<char>,
    removal: EngineReplyView,
    registry: RegistryView,
    now: Timestamp,
)
    requires
        flow.stage == (CreateStageView::StartingContainer { container_id }),
    ensures
        ({
            let first = spec_create_advance(flow, EngineReplyView::Failed(reason), registry, now);
            &&& first.step == StepView::Perform(
                EngineCallView::RemoveContainer { container_id, force: true },
            )
            &&& first.registry == registry
            &&& first.flow matches Some(next) && ({
                let second = spec_create_advance(next, removal, registry, now);
                &&& second.flow.is_none()
                &&& second.registry == registry
                &&& step_error_code(second.step) == Some(-32603int)
            })
        }),
{
}

/// A failure of any step before the start ends the creation with -32603
/// and leaves the registry as it was.
pub proof fn lemma_engine_failure_is_internal(
    flow: CreateFlowView,
    reason: Seq<char>,
    registry: RegistryView,
    now: Timestamp,
)
    requires
        flow.stage is Connecting || flow.stage is EnsuringImage || flow.stage is CreatingContainer,
    ensures
        ({
            let turn = spec_create_advance(flow, EngineReplyView::Failed(reason), registry, now);
            &&& turn.flow.is_none()
            &&& turn.registry == registry
            &&& step_error_code(turn.step) == Some(-32603int)
        }),
{
}

/// How far a stage is along the creation.
pub open spec fn stage_rank(stage: CreateStageView) -> nat {
    match stage {
        CreateStageView::CheckingPath => 0,
        CreateStageView::Connecting => 1,
        CreateStageView::EnsuringImage => 2,
        CreateStageView::CreatingContainer => 3,
        CreateStageView::StartingContainer { .. } => 4,
        CreateStageView::RemovingContainer { .. } => 5,
    }
}

/// Order: a creation that goes on moves to a later stage with the same
/// parameters, so it ends after six turns at most; and the registry changes
/// in one turn only, the one that takes the reply of a successful start.
pub proof fn lemma_create_moves_forward(
    flow: CreateFlowView,
    reply: EngineReplyView,
    registry: RegistryView,
    now: Timestamp,
)
    ensures
        ({
            let turn = spec_create_advance(flow, reply, registry, now);
            &&& turn.flow matches Some(next) ==> stage_rank(next.stage) > stage_rank(flow.stage)
                && next.params == flow.params && turn.step is Perform
            &&& turn.flow.is_none() ==> turn.step is Finish
            &&& turn.registry != registry ==> flow.stage is StartingContainer && reply is Done
                && turn.step matches StepView::Finish(Ok(_))
        }),
{
}

} // verus!
