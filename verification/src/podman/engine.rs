use crate::environment::vars::EnvVars;
use crate::mcp::params::texts;
use crate::podman::container::{ExecResult, ExecResultView};
use vstd::prelude::*;

verus! {

/// One piece of work for the container engine or the host, asked for by a
/// handler. The handler waits for the reply before it decides anything
/// more.
#[derive(Debug)]
pub enum EngineCall {
    /// Tell whether a path exists on the host.
    PathExists { path: String },
    /// Connect to the container engine.
    Connect,
    /// Make sure an image is present locally, pulling it if it is absent.
    EnsureImage { image: String },
    /// Create a container that bind-mounts `host_path` at `mount_path`.
    CreateContainer {
        name: String,
        image: String,
        host_path: String,
        mount_path: String,
        env_vars: EnvVars,
    },
    StartContainer { container_id: String },
    RemoveContainer { container_id: String, force: bool },
    /// Execute `command` inside a container.
    ExecCommand { container_id: String, command: Vec<String> },
}

/// The mathematical counterpart of [`EngineCall`].
pub enum EngineCallView {
    PathExists { path: Seq<char> },
    Connect,
    EnsureImage { image: Seq<char> },
    CreateContainer {
        name: Seq<char>,
        image: Seq<char>,
        host_path: Seq<char>,
        mount_path: Seq<char>,
        env_vars: Map<Seq<char>, Seq<char>>,
    },
    StartContainer { container_id: Seq<char> },
    RemoveContainer { container_id: Seq<char>, force: bool },
    ExecCommand { container_id: Seq<char>, command: Seq<Seq<char>> },
}

impl View for EngineCall {
    type V = EngineCallView;

    open spec fn view(&self) -> EngineCallView {
        match self {
            EngineCall::PathExists { path } => EngineCallView::PathExists { path: path@ },
            EngineCall::Connect => EngineCallView::Connect,
            EngineCall::EnsureImage { image } => EngineCallView::EnsureImage { image: image@ },
            EngineCall::CreateContainer { name, image, host_path, mount_path, env_vars } => {
                EngineCallView::CreateContainer {
                    name: name@,
                    image: image@,
                    host_path: host_path@,
                    mount_path: mount_path@,
                    env_vars: env_vars@,
                }
            },
            EngineCall::StartContainer { container_id } => EngineCallView::StartContainer {
                container_id: container_id@,
            },
            EngineCall::RemoveContainer { container_id, force } => EngineCallView::RemoveContainer {
                container_id: container_id@,
                force: *force,
            },
            EngineCall::ExecCommand { container_id, command } => EngineCallView::ExecCommand {
                container_id: container_id@,
                command: texts(command@),
            },
        }
    }
}

/// What came of an [`EngineCall`].
#[derive(Debug)]
pub enum EngineReply {
    /// Answer to `PathExists`.
    Exists(bool),
    /// The work was done and has nothing to report.
    Done,
    /// Answer to `CreateContainer`: the id of the new container.
    Created(String),
    /// Answer to `ExecCommand`.
    Executed(ExecResult),
    /// The work failed, with the collaborator's own words.
    Failed(String),
}

/// The mathematical counterpart of [`EngineReply`].
pub enum EngineReplyView {
    Exists(bool),
    Done,
    Created(Seq<char>),
    Executed(ExecResultView),
    Failed(Seq<char>),
}

impl View for EngineReply {
    type V = EngineReplyView;

    open spec fn view(&self) -> EngineReplyView {
        match self {
            EngineReply::Exists(found) => EngineReplyView::Exists(*found),
            EngineReply::Done => EngineReplyView::Done,
            EngineReply::Created(id) => EngineReplyView::Created(id@),
            EngineReply::Executed(result) => EngineReplyView::Executed(result@),
            EngineReply::Failed(reason) => EngineReplyView::Failed(reason@),
        }
    }
}

} // verus!
