use crate::environment::handle::{
    current_time, status_text, EnvironmentHandle, EnvironmentStatus, HandleView, StatusView,
    Timestamp,
};
use crate::environment::registry::{
    error_message, spec_get, spec_register, EnvironmentRegistry, RegistryView,
};
use crate::json::{items_value, members_value, push_member, Json, JsonValue};
use crate::mcp::encode::{
    encode_list, encode_time, encode_vars, string_array, string_object, time_value,
};
use crate::mcp::params::{
    parse_create_params, parse_run_params, spec_create_params, spec_run_params, texts,
    CreateParams, CreateParamsView, RunParams, RunParamsView,
};
use crate::podman::container::{ExecResult, ExecResultView};
use crate::mcp::server::ServerState;
use crate::mcp::types::{
    plain_error, ErrorView, McpError, McpRequest, RequestView, METHOD_NOT_FOUND,
};
use crate::podman::engine::{EngineCall, EngineCallView, EngineReply, EngineReplyView};
use crate::text::{join2, join3};
use vstd::prelude::*;
use vstd::string::StringExecFns;

verus! {

/// What a handler wants next: a piece of work from a collaborator, or the
/// end of the exchange with a result or an error.
#[derive(Debug)]
pub enum Step {
    Perform(EngineCall),
    Finish(Result<Json, McpError>),
}

/// The mathematical counterpart of [`Step`].
pub enum StepView {
    Perform(EngineCallView),
    Finish(Result<JsonValue, ErrorView>),
}

impl View for Step {
    type V = StepView;

    open spec fn view(&self) -> StepView {
        match self {
            Step::Perform(call) => StepView::Perform(call@),
            Step::Finish(Ok(doc)) => StepView::Finish(Ok(doc@)),
            Step::Finish(Err(e)) => StepView::Finish(Err(e@)),
        }
    }
}

/// The flow of a request that waits for a collaborator.
#[derive(Debug)]
pub enum Pending {
    Create(CreateFlow),
    Run(RunFlow),
}

/// The mathematical counterpart of [`Pending`].
pub enum PendingView {
    Create(CreateFlowView),
    Run(RunFlowView),
}

impl View for Pending {
    type V = PendingView;

    open spec fn view(&self) -> PendingView {
        match self {
            Pending::Create(flow) => PendingView::Create(flow@),
            Pending::Run(flow) => PendingView::Run(flow@),
        }
    }
}

/// The view of a flow that may be over.
pub open spec fn opt_pending(flow: Option<Pending>) -> Option<PendingView> {
    match flow {
        Some(flow) => Some(flow@),
        None => None,
    }
}

/// A create flow that may be over, as a pending flow.
pub open spec fn pending_create(flow: Option<CreateFlowView>) -> Option<PendingView> {
    match flow {
        Some(flow) => Some(PendingView::Create(flow)),
        None => None,
    }
}

/// A run flow that may be over, as a pending flow.
pub open spec fn pending_run(flow: Option<RunFlowView>) -> Option<PendingView> {
    match flow {
        Some(flow) => Some(PendingView::Run(flow)),
        None => None,
    }
}

/// Trait for handling MCP methods: one operation, from a request and the
/// shared state to the first step of the exchange. A handler reads the state
/// and returns before any work is done outside.
pub trait Handler {
    /// What the handler decides on a request, given what the registry
    /// holds: the flow that stays pending, if any, and the step to take.
    spec fn spec_handle(&self, request: RequestView, registry: RegistryView) -> (
        Option<PendingView>,
        StepView,
    );

    /// Handle a request.
    fn handle(&self, request: &McpRequest, state: &ServerState) -> (r: (Option<Pending>, Step))
        ensures
            (opt_pending(r.0), r.1@) == self.spec_handle(request@, state.registry@),
    ;
}

/// The end of an exchange with an internal error.
pub open spec fn fail_internal(message: Seq<char>) -> StepView {
    StepView::Finish(Err(plain_error(-32603, message)))
}

/// The end of an exchange with refused parameters.
pub open spec fn fail_params(message: Seq<char>) -> StepView {
    StepView::Finish(Err(plain_error(-32602, message)))
}

/// The message for a reply that does not answer the work that was asked
/// for.
pub open spec fn unexpected_reply() -> Seq<char> {
    "Unexpected reply from the container engine"@
}

/// How far the creation of an environment has come: the work whose reply is
/// awaited.
#[derive(Debug, PartialEq, Eq)]
pub enum CreateStage {
    CheckingPath,
    Connecting,
    EnsuringImage,
    CreatingContainer,
    StartingContainer { container_id: String },
    /// The start failed for `reason`; the container is being removed again.
    RemovingContainer { reason: String },
}

/// The mathematical counterpart of [`CreateStage`].
pub enum CreateStageView {
    CheckingPath,
    Connecting,
    EnsuringImage,
    CreatingContainer,
    StartingContainer { container_id: Seq<char> },
    RemovingContainer { reason: Seq<char> },
}

impl View for CreateStage {
    type V = CreateStageView;

    open spec fn view(&self) -> CreateStageView {
        match self {
            CreateStage::CheckingPath => CreateStageView::CheckingPath,
            CreateStage::Connecting => CreateStageView::Connecting,
            CreateStage::EnsuringImage => CreateStageView::EnsuringImage,
            CreateStage::CreatingContainer => CreateStageView::CreatingContainer,
            CreateStage::StartingContainer { container_id } => CreateStageView::StartingContainer {
                container_id: container_id@,
            },
            CreateStage::RemovingContainer { reason } => CreateStageView::RemovingContainer {
                reason: reason@,
            },
        }
    }
}

/// A creation under way: what was asked for and how far it has come.
#[derive(Debug)]
pub struct CreateFlow {
    pub params: CreateParams,
    pub stage: CreateStage,
}

/// The mathematical counterpart of [`CreateFlow`].
pub struct CreateFlowView {
    pub params: CreateParamsView,
    pub stage: CreateStageView,
}

impl View for CreateFlow {
    type V = CreateFlowView;

    open spec fn view(&self) -> CreateFlowView {
        CreateFlowView { params: self.params@, stage: self.stage@ }
    }
}

/// The view of a creation that may be over.
pub open spec fn opt_create_flow(flow: Option<CreateFlow>) -> Option<CreateFlowView> {
    match flow {
        Some(f) => Some(f@),
        None => None,
    }
}

/// One turn of a creation: the flow that goes on, if any, the step to
/// take, and the registry after the turn.
pub struct CreateTurn {
    pub flow: Option<CreateFlowView>,
    pub step: StepView,
    pub registry: RegistryView,
}

/// The handle of an environment that was created and started.
pub open spec fn running_handle(
    params: CreateParamsView,
    container_id: Seq<char>,
    now: Timestamp,
) -> HandleView {
    HandleView {
        env_id: params.env_id,
        container_id,
        project_root: params.project_root,
        mount_path: params.mount_path,
        created_at: now,
        status: StatusView::Running,
        image: params.image,
        env_vars: params.env_vars,
    }
}

/// The descriptor that a successful creation returns: `env_vars` and
/// `ports` only where some were given.
pub open spec fn create_result(
    params: CreateParamsView,
    container_id: Seq<char>,
    now: Timestamp,
) -> JsonValue {
    let base = Map::<Seq<char>, JsonValue>::empty().insert(
        "env_id"@,
        JsonValue::Str(params.env_id),
    ).insert("container_id"@, JsonValue::Str(container_id)).insert(
        "project_root"@,
        JsonValue::Str(params.project_root),
    ).insert("mount_path"@, JsonValue::Str(params.mount_path)).insert(
        "status"@,
        JsonValue::Str("running"@),
    ).insert("created_at"@, time_value(now));
    let with_vars = if params.env_vars == Map::<Seq<char>, Seq<char>>::empty() {
        base
    } else {
        base.insert("env_vars"@, string_object(params.env_vars))
    };
    JsonValue::Object(
        if params.ports.len() == 0 {
            with_vars
        } else {
            with_vars.insert("ports"@, string_array(params.ports))
        },
    )
}

/// The work that creates the container of an environment.
pub open spec fn create_container_call(params: CreateParamsView) -> EngineCallView {
    EngineCallView::CreateContainer {
        name: params.env_id,
        image: params.image,
        host_path: params.project_root,
        mount_path: params.mount_path,
        env_vars: params.env_vars,
    }
}

/// A creation that ends here.
pub open spec fn create_ends(step: StepView, registry: RegistryView) -> CreateTurn {
    CreateTurn { flow: None, step, registry }
}

/// A creation that goes on to `stage` with the work `call`.
pub open spec fn create_goes_on(
    params: CreateParamsView,
    stage: CreateStageView,
    call: EngineCallView,
    registry: RegistryView,
) -> CreateTurn {
    CreateTurn {
        flow: Some(CreateFlowView { params, stage }),
        step: StepView::Perform(call),
        registry,
    }
}

/// The last turn of a creation whose container runs: the handle is
/// registered in one step, and only then is the environment known to the
/// registry. Where the id was taken in the meantime the registry refuses, and
/// the creation ends as every duplicate id does, with refused parameters.
pub open spec fn create_completes(
    params: CreateParamsView,
    container_id: Seq<char>,
    registry: RegistryView,
    now: Timestamp,
) -> CreateTurn {
    let (after, outcome) = spec_register(registry, running_handle(params, container_id, now));
    match outcome {
        Ok(()) => create_ends(
            StepView::Finish(Ok(create_result(params, container_id, now))),
            after,
        ),
        Err(e) => create_ends(fail_params(error_message(e)), after),
    }
}

/// The decisions of the creation of an environment, turn by turn.
///
/// The steps run in order: the project root must exist; the id must be
/// free; connect; ensure the image; create the container; start it. A step
/// that fails ends the creation with an internal error; an id that is taken,
/// whether that shows at the first lookup or at registration, ends it with
/// refused parameters. Where the start fails the
/// container that was just created is removed again, by force, before the
/// error is reported, and whatever comes of that removal the error is the one
/// of the start. The registry changes on full success only.
pub open spec fn spec_create_advance(
    flow: CreateFlowView,
    reply: EngineReplyView,
    registry: RegistryView,
    now: Timestamp,
) -> CreateTurn {
    let params = flow.params;
    match flow.stage {
        CreateStageView::CheckingPath => match reply {
            EngineReplyView::Exists(true) => if registry.contains_key(params.env_id) {
                create_ends(
                    fail_params("Environment '"@ + params.env_id + "' already exists"@),
                    registry,
                )
            } else {
                create_goes_on(
                    params,
                    CreateStageView::Connecting,
                    EngineCallView::Connect,
                    registry,
                )
            },
            EngineReplyView::Exists(false) => create_ends(
                fail_params("Project root does not exist: "@ + params.project_root),
                registry,
            ),
            EngineReplyView::Failed(reason) => create_ends(
                fail_params("Project root does not exist: "@ + params.project_root),
                registry,
            ),
            _ => create_ends(fail_internal(unexpected_reply()), registry),
        },
        CreateStageView::Connecting => match reply {
            EngineReplyView::Done => create_goes_on(
                params,
                CreateStageView::EnsuringImage,
                EngineCallView::EnsureImage { image: params.image },
                registry,
            ),
            EngineReplyView::Failed(reason) => create_ends(
                fail_internal("Failed to connect to Podman: "@ + reason),
                registry,
            ),
            _ => create_ends(fail_internal(unexpected_reply()), registry),
        },
        CreateStageView::EnsuringImage => match reply {
            EngineReplyView::Done => create_goes_on(
                params,
                CreateStageView::CreatingContainer,
                create_container_call(params),
                registry,
            ),
            EngineReplyView::Failed(reason) => create_ends(
                fail_internal("Failed to ensure image: "@ + reason),
                registry,
            ),
            _ => create_ends(fail_internal(unexpected_reply()), registry),
        },
        CreateStageView::CreatingContainer => match reply {
            EngineReplyView::Created(container_id) => create_goes_on(
                params,
                CreateStageView::StartingContainer { container_id },
                EngineCallView::StartContainer { container_id },
                registry,
            ),
            EngineReplyView::Failed(reason) => create_ends(
                fail_internal("Failed to create container: "@ + reason),
                registry,
            ),
            _ => create_ends(fail_internal(unexpected_reply()), registry),
        },
        CreateStageView::StartingContainer { container_id } => match reply {
            EngineReplyView::Done => create_completes(params, container_id, registry, now),
            EngineReplyView::Failed(reason) => create_goes_on(
                params,
                CreateStageView::RemovingContainer { reason },
                EngineCallView::RemoveContainer { container_id, force: true },
                registry,
            ),
            _ => create_goes_on(
                params,
                CreateStageView::RemovingContainer { reason: unexpected_reply() },
                EngineCallView::RemoveContainer { container_id, force: true },
                registry,
            ),
        },
        CreateStageView::RemovingContainer { reason } => create_ends(
            fail_internal("Failed to start container: "@ + reason),
            registry,
        ),
    }
}

/// The first turn of a creation: the parameters are read, and where they are
/// in order the existence of the project root is asked for.
pub open spec fn spec_create_begin(params: Option<JsonValue>) -> (Option<CreateFlowView>, StepView) {
    match spec_create_params(params) {
        Ok(p) => (
            Some(CreateFlowView { params: p, stage: CreateStageView::CheckingPath }),
            StepView::Perform(EngineCallView::PathExists { path: p.project_root }),
        ),
        Err(e) => (None, StepView::Finish(Err(e))),
    }
}

fn finish_internal(message: String) -> (step: Step)
    ensures
        step@ == fail_internal(message@),
{
    Step::Finish(Err(McpError::internal_error(message.as_str())))
}

fn finish_unexpected() -> (step: Step)
    ensures
        step@ == fail_internal(unexpected_reply()),
{
    finish_internal(String::from_str("Unexpected reply from the container engine"))
}

fn finish_params(message: String) -> (step: Step)
    ensures
        step@ == fail_params(message@),
{
    Step::Finish(Err(McpError::invalid_params(message.as_str())))
}

fn build_create_result(params: &CreateParams, container_id: &str, now: Timestamp) -> (doc: Json)
    ensures
        doc@ == create_result(params@, container_id@, now),
{
    let mut members: Vec<(String, Json)> = Vec::new();
    assert(members_value(members@) =~= Map::empty());
    push_member(&mut members, "env_id", Json::Str(params.env_id.clone()));
    push_member(&mut members, "container_id", Json::Str(String::from_str(container_id)));
    push_member(&mut members, "project_root", Json::Str(params.project_root.clone()));
    push_member(&mut members, "mount_path", Json::Str(params.mount_path.clone()));
    push_member(&mut members, "status", Json::Str(String::from_str(EnvironmentStatus::Running.tag())));
    push_member(&mut members, "created_at", encode_time(now));
    if !params.env_vars.is_empty() {
        push_member(&mut members, "env_vars", encode_vars(&params.env_vars));
    }
    if params.ports.len() > 0 {
        push_member(&mut members, "ports", encode_list(&params.ports));
    }
    Json::Object(members)
}

fn build_running_handle(params: &CreateParams, container_id: &str, now: Timestamp) -> (handle:
    EnvironmentHandle)
    ensures
        handle@ == running_handle(params@, container_id@, now),
{
    let mut handle = EnvironmentHandle::created_at(
        params.env_id.as_str(),
        container_id,
        params.project_root.as_str(),
        params.image.as_str(),
        now,
    );
    handle.mount_path = params.mount_path.clone();
    if !params.env_vars.is_empty() {
        handle.add_env_vars(&params.env_vars);
    }
    handle.set_status(EnvironmentStatus::Running);
    assert(handle@.env_vars =~= params@.env_vars);
    handle
}

fn go_on(params: CreateParams, stage: CreateStage, call: EngineCall) -> (r: (
    Option<CreateFlow>,
    Step,
))
    ensures
        opt_create_flow(r.0) == Some(CreateFlowView { params: params@, stage: stage@ }),
        r.1@ == StepView::Perform(call@),
{
    (Some(CreateFlow { params, stage }), Step::Perform(call))
}

/// Handler for the `create_environment` method.
pub struct CreateEnvironmentHandler;

impl Handler for CreateEnvironmentHandler {
    open spec fn spec_handle(&self, request: RequestView, registry: RegistryView) -> (
        Option<PendingView>,
        StepView,
    ) {
        (pending_create(spec_create_begin(request.params).0), spec_create_begin(request.params).1)
    }

    /// Opens the creation that a request asks for. Nothing has been done
    /// yet when this returns: refused parameters end the exchange, and
    /// otherwise the first piece of work is asked for.
    fn handle(&self, request: &McpRequest, state: &ServerState) -> (r: (Option<Pending>, Step)) {
        match parse_create_params(request.params.as_ref()) {
            Ok(params) => {
                let path = params.project_root.clone();
                (
                    Some(Pending::Create(CreateFlow { params, stage: CreateStage::CheckingPath })),
                    Step::Perform(EngineCall::PathExists { path }),
                )
            },
            Err(e) => (None, Step::Finish(Err(e))),
        }
    }
}

impl CreateFlow {
    /// Takes the reply to the work that was asked for last and decides what
    /// comes next, with `now` as the time of creation should the environment
    /// be complete.
    pub fn advance_at(
        self,
        reply: EngineReply,
        registry: &mut EnvironmentRegistry,
        now: Timestamp,
    ) -> (r: (Option<CreateFlow>, Step))
        ensures
            (CreateTurn { flow: opt_create_flow(r.0), step: r.1@, registry: final(registry)@ })
                == spec_create_advance(self@, reply@, old(registry)@, now),
    {
        let CreateFlow { params, stage } = self;
        match stage {
            CreateStage::CheckingPath => match reply {
                EngineReply::Exists(true) => {
                    if registry.contains(params.env_id.as_str()) {
                        (
                            None,
                            finish_params(
                                join3("Environment '", params.env_id.as_str(), "' already exists"),
                            ),
                        )
                    } else {
                        go_on(params, CreateStage::Connecting, EngineCall::Connect)
                    }
                },
                EngineReply::Exists(false) | EngineReply::Failed(_) => (
                    None,
                    finish_params(
                        join2("Project root does not exist: ", params.project_root.as_str()),
                    ),
                ),
                _ => (None, finish_unexpected()),
            },
            CreateStage::Connecting => match reply {
                EngineReply::Done => {
                    let image = params.image.clone();
                    go_on(params, CreateStage::EnsuringImage, EngineCall::EnsureImage { image })
                },
                EngineReply::Failed(reason) => (
                    None,
                    finish_internal(join2("Failed to connect to Podman: ", reason.as_str())),
                ),
                _ => (None, finish_unexpected()),
            },
            CreateStage::EnsuringImage => match reply {
                EngineReply::Done => {
                    let call = EngineCall::CreateContainer {
                        name: params.env_id.clone(),
                        image: params.image.clone(),
                        host_path: params.project_root.clone(),
                        mount_path: params.mount_path.clone(),
                        env_vars: params.env_vars.duplicate(),
                    };
                    go_on(params, CreateStage::CreatingContainer, call)
                },
                EngineReply::Failed(reason) => (
                    None,
                    finish_internal(join2("Failed to ensure image: ", reason.as_str())),
                ),
                _ => (None, finish_unexpected()),
            },
            CreateStage::CreatingContainer => match reply {
                EngineReply::Created(container_id) => {
                    let call = EngineCall::StartContainer { container_id: container_id.clone() };
                    go_on(params, CreateStage::StartingContainer { container_id }, call)
                },
                EngineReply::Failed(reason) => (
                    None,
                    finish_internal(join2("Failed to create container: ", reason.as_str())),
                ),
                _ => (None, finish_unexpected()),
            },
            CreateStage::StartingContainer { container_id } => match reply {
                EngineReply::Done => {
                    let handle = build_running_handle(&params, container_id.as_str(), now);
                    match registry.register(handle) {
                        Ok(()) => (
                            None,
                            Step::Finish(
                                Ok(build_create_result(&params, container_id.as_str(), now)),
                            ),
                        ),
                        Err(e) => (None, finish_params(e.message())),
                    }
                },
                EngineReply::Failed(reason) => go_on(
                    params,
                    CreateStage::RemovingContainer { reason },
                    EngineCall::RemoveContainer { container_id, force: true },
                ),
                _ => go_on(
                    params,
                    CreateStage::RemovingContainer {
                        reason: String::from_str("Unexpected reply from the container engine"),
                    },
                    EngineCall::RemoveContainer { container_id, force: true },
                ),
            },
            CreateStage::RemovingContainer { reason } => (
                None,
                finish_internal(join2("Failed to start container: ", reason.as_str())),
            ),
        }
    }

    /// Takes the reply to the work that was asked for last and decides what
    /// comes next. An environment that is complete is stamped with the
    /// current time.
    pub fn advance(self, reply: EngineReply, registry: &mut EnvironmentRegistry) -> (r: (
        Option<CreateFlow>,
        Step,
    ))
        ensures
            exists|now: Timestamp|
                (CreateTurn { flow: opt_create_flow(r.0), step: r.1@, registry: final(registry)@ })
                    == #[trigger] spec_create_advance(self@, reply@, old(registry)@, now),
    {
        let now = current_time();
        self.advance_at(reply, registry, now)
    }
}

/// How far the run of a command has come: the work whose reply is
/// awaited.
#[derive(Clone, Copy, Debug, PartialEq, Eq, Structural)]
pub enum RunStage {
    Connecting,
    Executing,
}

/// A run of a command under way.
#[derive(Debug)]
pub struct RunFlow {
    pub params: RunParams,
    /// The container of the environment, as the registry gave it.
    pub container_id: String,
    pub stage: RunStage,
}

/// The mathematical counterpart of [`RunFlow`].
pub struct RunFlowView {
    pub params: RunParamsView,
    pub container_id: Seq<char>,
    pub stage: RunStage,
}

impl View for RunFlow {
    type V = RunFlowView;

    open spec fn view(&self) -> RunFlowView {
        RunFlowView {
            params: self.params@,
            container_id: self.container_id@,
            stage: self.stage,
        }
    }
}

/// The view of a run that may be over.
pub open spec fn opt_run_flow(flow: Option<RunFlow>) -> Option<RunFlowView> {
    match flow {
        Some(f) => Some(f@),
        None => None,
    }
}

/// The message for a command sent to an environment that does not run; it
/// names the status the environment has.
pub open spec fn not_running_message(env_id: Seq<char>, status: StatusView) -> Seq<char> {
    "Environment '"@ + env_id + "' is not running (status: "@ + status_text(status) + ")"@
}

/// The command as the container gets it: handed to a shell.
pub open spec fn shell_command(command: Seq<char>) -> Seq<Seq<char>> {
    seq!["sh"@, "-c"@, command]
}

/// What a run returns; an exit code that is not known is given as -1.
pub open spec fn run_result(params: RunParamsView, result: ExecResultView, now: Timestamp) -> JsonValue {
    JsonValue::Object(
        Map::<Seq<char>, JsonValue>::empty().insert("env_id"@, JsonValue::Str(params.env_id)).insert(
            "command"@,
            JsonValue::Str(params.command),
        ).insert(
            "exit_code"@,
            JsonValue::Int(
                match result.exit_code {
                    Some(code) => code as int,
                    None => -1,
                },
            ),
        ).insert("stdout"@, JsonValue::Str(result.stdout)).insert(
            "stderr"@,
            JsonValue::Str(result.stderr),
        ).insert("executed_at"@, time_value(now)),
    )
}

/// The first turn of a run: the parameters are read, the environment is
/// looked up and must be running; then the connection is asked for. The
/// registry is only read.
pub open spec fn spec_run_begin(params: Option<JsonValue>, registry: RegistryView) -> (
    Option<RunFlowView>,
    StepView,
) {
    match spec_run_params(params) {
        Err(e) => (None, StepView::Finish(Err(e))),
        Ok(p) => match spec_get(registry, p.env_id) {
            Err(e) => (None, fail_params("Environment not found: "@ + error_message(e))),
            Ok(handle) => if handle.status != StatusView::Running {
                (
                    None,
                    StepView::Finish(
                        Err(plain_error(-32600, not_running_message(p.env_id, handle.status))),
                    ),
                )
            } else {
                (
                    Some(
                        RunFlowView {
                            params: p,
                            container_id: handle.container_id,
                            stage: RunStage::Connecting,
                        },
                    ),
                    StepView::Perform(EngineCallView::Connect),
                )
            },
        },
    }
}

/// The decisions of a run, turn by turn: connect, then execute the command
/// through a shell; a step that fails ends the run with an internal error.
pub open spec fn spec_run_advance(flow: RunFlowView, reply: EngineReplyView, now: Timestamp) -> (
    Option<RunFlowView>,
    StepView,
) {
    match flow.stage {
        RunStage::Connecting => match reply {
            EngineReplyView::Done => (
                Some(RunFlowView { stage: RunStage::Executing, ..flow }),
                StepView::Perform(
                    EngineCallView::ExecCommand {
                        container_id: flow.container_id,
                        command: shell_command(flow.params.command),
                    },
                ),
            ),
            EngineReplyView::Failed(reason) => (
                None,
                fail_internal("Failed to connect to Podman: "@ + reason),
            ),
            _ => (None, fail_internal(unexpected_reply())),
        },
        RunStage::Executing => match reply {
            EngineReplyView::Executed(result) => (
                None,
                StepView::Finish(Ok(run_result(flow.params, result, now))),
            ),
            EngineReplyView::Failed(reason) => (
                None,
                fail_internal("Failed to execute command: "@ + reason),
            ),
            _ => (None, fail_internal(unexpected_reply())),
        },
    }
}

fn build_run_result(params: &RunParams, result: &ExecResult, now: Timestamp) -> (doc: Json)
    ensures
        doc@ == run_result(params@, result@, now),
{
    let mut members: Vec<(String, Json)> = Vec::new();
    assert(members_value(members@) =~= Map::empty());
    push_member(&mut members, "env_id", Json::Str(params.env_id.clone()));
    push_member(&mut members, "command", Json::Str(params.command.clone()));
    let code: i64 = match result.exit_code {
        Some(code) => code,
        None => -1,
    };
    push_member(&mut members, "exit_code", Json::Int(code));
    push_member(&mut members, "stdout", Json::Str(result.stdout.clone()));
    push_member(&mut members, "stderr", Json::Str(result.stderr.clone()));
    push_member(&mut members, "executed_at", encode_time(now));
    Json::Object(members)
}

fn build_shell_command(command: &str) -> (argv: Vec<String>)
    ensures
        texts(argv@) == shell_command(command@),
{
    let mut argv: Vec<String> = Vec::new();
    argv.push(String::from_str("sh"));
    argv.push(String::from_str("-c"));
    argv.push(String::from_str(command));
    assert(texts(argv@) =~= shell_command(command@));
    argv
}

/// Handler for the `run_command` method.
pub struct RunCommandHandler;

impl Handler for RunCommandHandler {
    open spec fn spec_handle(&self, request: RequestView, registry: RegistryView) -> (
        Option<PendingView>,
        StepView,
    ) {
        (
            pending_run(spec_run_begin(request.params, registry).0),
            spec_run_begin(request.params, registry).1,
        )
    }

    /// Opens the run that a request asks for.
    fn handle(&self, request: &McpRequest, state: &ServerState) -> (r: (Option<Pending>, Step)) {
        let params = match parse_run_params(request.params.as_ref()) {
            Ok(params) => params,
            Err(e) => {
                return (None, Step::Finish(Err(e)));
            },
        };
        let handle = match state.registry.get(params.env_id.as_str()) {
            Ok(handle) => handle,
            Err(e) => {
                let reason = e.message();
                return (None, finish_params(join2("Environment not found: ", reason.as_str())));
            },
        };
        if !handle.is_running() {
            let status = handle.status.describe();
            let mut message = join3(
                "Environment '",
                params.env_id.as_str(),
                "' is not running (status: ",
            );
            message.append(status.as_str());
            message.append(")");
            return (None, Step::Finish(Err(McpError::invalid_request(message.as_str()))));
        }
        (
            Some(
                Pending::Run(
                    RunFlow { params, container_id: handle.container_id, stage: RunStage::Connecting },
                ),
            ),
            Step::Perform(EngineCall::Connect),
        )
    }
}

impl RunFlow {
    /// Takes the reply to the work that was asked for last and decides what
    /// comes next, with `now` as the time of execution.
    pub fn advance_at(self, reply: EngineReply, now: Timestamp) -> (r: (Option<RunFlow>, Step))
        ensures
            (opt_run_flow(r.0), r.1@) == spec_run_advance(self@, reply@, now),
    {
        let RunFlow { params, container_id, stage } = self;
        match stage {
            RunStage::Connecting => match reply {
                EngineReply::Done => {
                    let call = EngineCall::ExecCommand {
                        container_id: container_id.clone(),
                        command: build_shell_command(params.command.as_str()),
                    };
                    (
                        Some(RunFlow { params, container_id, stage: RunStage::Executing }),
                        Step::Perform(call),
                    )
                },
                EngineReply::Failed(reason) => (
                    None,
                    finish_internal(join2("Failed to connect to Podman: ", reason.as_str())),
                ),
                _ => (None, finish_unexpected()),
            },
            RunStage::Executing => match reply {
                EngineReply::Executed(result) => (
                    None,
                    Step::Finish(Ok(build_run_result(&params, &result, now))),
                ),
                EngineReply::Failed(reason) => (
                    None,
                    finish_internal(join2("Failed to execute command: ", reason.as_str())),
                ),
                _ => (None, finish_unexpected()),
            },
        }
    }

    /// Takes the reply to the work that was asked for last and decides what
    /// comes next. A result is stamped with the current time.
    pub fn advance(self, reply: EngineReply) -> (r: (Option<RunFlow>, Step))
        ensures
            exists|now: Timestamp|
                (opt_run_flow(r.0), r.1@) == #[trigger] spec_run_advance(self@, reply@, now),
    {
        let now = current_time();
        self.advance_at(reply, now)
    }
}

/// The descriptor that `initialize` returns.
pub open spec fn initialize_result() -> JsonValue {
    let server_info = JsonValue::Object(
        Map::<Seq<char>, JsonValue>::empty().insert("name"@, JsonValue::Str("cofer"@)).insert(
            "version"@,
            JsonValue::Str("0.1.0"@),
        ),
    );
    let create = JsonValue::Object(
        Map::<Seq<char>, JsonValue>::empty().insert(
            "name"@,
            JsonValue::Str("create_environment"@),
        ).insert("description"@, JsonValue::Str("Create a new container environment"@)),
    );
    let run = JsonValue::Object(
        Map::<Seq<char>, JsonValue>::empty().insert("name"@, JsonValue::Str("run_command"@)).insert(
            "description"@,
            JsonValue::Str("Execute a command in an environment"@),
        ),
    );
    let capabilities = JsonValue::Object(
        Map::<Seq<char>, JsonValue>::empty().insert("tools"@, JsonValue::Array(seq![create, run])),
    );
    JsonValue::Object(
        Map::<Seq<char>, JsonValue>::empty().insert(
            "protocolVersion"@,
            JsonValue::Str("0.1.0"@),
        ).insert("serverInfo"@, server_info).insert("capabilities"@, capabilities),
    )
}

fn tool(name: &str, description: &str) -> (doc: Json)
    ensures
        doc@ == JsonValue::Object(
            Map::<Seq<char>, JsonValue>::empty().insert("name"@, JsonValue::Str(name@)).insert(
                "description"@,
                JsonValue::Str(description@),
            ),
        ),
{
    let mut members: Vec<(String, Json)> = Vec::new();
    assert(members_value(members@) =~= Map::empty());
    push_member(&mut members, "name", Json::Str(String::from_str(name)));
    push_member(&mut members, "description", Json::Str(String::from_str(description)));
    Json::Object(members)
}

/// Handler for the `initialize` method.
pub struct InitializeHandler;

impl Handler for InitializeHandler {
    open spec fn spec_handle(&self, request: RequestView, registry: RegistryView) -> (
        Option<PendingView>,
        StepView,
    ) {
        (None, StepView::Finish(Ok(initialize_result())))
    }

    /// Returns the server's descriptor. It depends on nothing and changes
    /// nothing.
    fn handle(&self, request: &McpRequest, state: &ServerState) -> (r: (Option<Pending>, Step)) {
        let mut info: Vec<(String, Json)> = Vec::new();
        assert(members_value(info@) =~= Map::empty());
        push_member(&mut info, "name", Json::Str(String::from_str("cofer")));
        push_member(&mut info, "version", Json::Str(String::from_str("0.1.0")));
        let mut tools: Vec<Json> = Vec::new();
        tools.push(tool("create_environment", "Create a new container environment"));
        tools.push(tool("run_command", "Execute a command in an environment"));
        let ghost listed = tools@;
        assert(items_value(listed) =~= seq![listed[0]@, listed[1]@]);
        let mut capabilities: Vec<(String, Json)> = Vec::new();
        assert(members_value(capabilities@) =~= Map::empty());
        push_member(&mut capabilities, "tools", Json::Array(tools));
        let mut members: Vec<(String, Json)> = Vec::new();
        assert(members_value(members@) =~= Map::empty());
        push_member(&mut members, "protocolVersion", Json::Str(String::from_str("0.1.0")));
        push_member(&mut members, "serverInfo", Json::Object(info));
        push_member(&mut members, "capabilities", Json::Object(capabilities));
        (None, Step::Finish(Ok(Json::Object(members))))
    }
}

/// The error for a method that is known and not built yet: not found, and
/// said to be unimplemented.
pub open spec fn unimplemented_error(method: Seq<char>) -> ErrorView {
    plain_error(-32601, "Method '"@ + method + "' is unimplemented"@)
}

/// Handler for unimplemented methods.
pub struct UnimplementedHandler {
    pub method: String,
}

impl Handler for UnimplementedHandler {
    open spec fn spec_handle(&self, request: RequestView, registry: RegistryView) -> (
        Option<PendingView>,
        StepView,
    ) {
        (None, StepView::Finish(Err(unimplemented_error(self.method@))))
    }

    /// Always fails: the method is known and has not been built.
    fn handle(&self, request: &McpRequest, state: &ServerState) -> (r: (Option<Pending>, Step)) {
        let message = join3("Method '", self.method.as_str(), "' is unimplemented");
        (
            None,
            Step::Finish(
                Err(McpError { code: METHOD_NOT_FOUND, message, data: None }),
            ),
        )
    }
}

} // verus!
