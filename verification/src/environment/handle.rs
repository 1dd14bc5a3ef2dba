use crate::environment::vars::EnvVars;
use crate::text::join3;
use vstd::prelude::*;
use vstd::string::StringExecFns;

verus! {

/// A point in time: whole seconds since 1970-01-01 00:00:00 UTC and the
/// nanoseconds past that second.
#[derive(Clone, Copy, Debug, PartialEq, Eq, Structural)]
pub struct Timestamp {
    pub seconds: i64,
    pub nanos: u32,
}

/// The RFC 3339 text of a point in time, where the calendar can express it.
/// The offset from UTC, which is none, is written as `Z` where `zulu` holds and
/// as `+00:00` where it does not.
pub uninterp spec fn rfc3339_text(seconds: int, nanos: int, zulu: bool) -> Option<Seq<char>>;

/// Reads the clock with `std::time::SystemTime::now` and turns it into a
/// `chrono::DateTime<Utc>` through chrono's `From<SystemTime>`, which also
/// takes a clock that reads earlier than 1970. Nothing is promised of the time
/// it returns.
#[verifier::external_body]
pub(crate) fn current_time() -> Timestamp {
    let now = chrono::DateTime::<chrono::Utc>::from(std::time::SystemTime::now());
    Timestamp { seconds: now.timestamp(), nanos: now.timestamp_subsec_nanos() }
}

/// Formats a point in time with `chrono::DateTime::from_timestamp` and
/// `DateTime::to_rfc3339_opts`, with as many digits of the second as the time
/// needs. The result depends on the arguments alone; it is `None` where
/// `from_timestamp` rejects the two numbers. The time is in UTC, so its local
/// form, which `to_rfc3339_opts` takes, is the time itself.
#[verifier::external_body]
fn format_rfc3339(seconds: i64, nanos: u32, zulu: bool) -> (r: Option<String>)
    ensures
        r.is_some() == rfc3339_text(seconds as int, nanos as int, zulu).is_some(),
        r matches Some(text) ==> Some(text@) == rfc3339_text(seconds as int, nanos as int, zulu),
{
    chrono::DateTime::from_timestamp(seconds, nanos).map(
        |t| t.to_rfc3339_opts(chrono::SecondsFormat::AutoSi, zulu),
    )
}

impl Timestamp {
    /// The time as RFC 3339 text with the offset `+00:00`, or `None` where
    /// the calendar cannot express it.
    pub fn to_rfc3339(&self) -> (r: Option<String>)
        ensures
            r.is_some() == rfc3339_text(self.seconds as int, self.nanos as int, false).is_some(),
            r matches Some(text) ==> Some(text@) == rfc3339_text(
                self.seconds as int,
                self.nanos as int,
                false,
            ),
    {
        format_rfc3339(self.seconds, self.nanos, false)
    }

    /// The time as RFC 3339 text with the offset `Z`, or `None` where the
    /// calendar cannot express it.
    pub fn to_rfc3339_zulu(&self) -> (r: Option<String>)
        ensures
            r.is_some() == rfc3339_text(self.seconds as int, self.nanos as int, true).is_some(),
            r matches Some(text) ==> Some(text@) == rfc3339_text(
                self.seconds as int,
                self.nanos as int,
                true,
            ),
    {
        format_rfc3339(self.seconds, self.nanos, true)
    }
}

/// Status of an environment.
#[derive(Debug, PartialEq, Eq)]
pub enum EnvironmentStatus {
    Creating,
    Running,
    Stopping,
    Stopped,
    Error(String),
}

/// The mathematical counterpart of [`EnvironmentStatus`].
pub enum StatusView {
    Creating,
    Running,
    Stopping,
    Stopped,
    Error(Seq<char>),
}

impl View for EnvironmentStatus {
    type V = StatusView;

    open spec fn view(&self) -> StatusView {
        match self {
            EnvironmentStatus::Creating => StatusView::Creating,
            EnvironmentStatus::Running => StatusView::Running,
            EnvironmentStatus::Stopping => StatusView::Stopping,
            EnvironmentStatus::Stopped => StatusView::Stopped,
            EnvironmentStatus::Error(reason) => StatusView::Error(reason@),
        }
    }
}

impl Clone for EnvironmentStatus {
    fn clone(&self) -> (r: Self)
        ensures
            r@ == self@,
    {
        match self {
            EnvironmentStatus::Creating => EnvironmentStatus::Creating,
            EnvironmentStatus::Running => EnvironmentStatus::Running,
            EnvironmentStatus::Stopping => EnvironmentStatus::Stopping,
            EnvironmentStatus::Stopped => EnvironmentStatus::Stopped,
            EnvironmentStatus::Error(reason) => EnvironmentStatus::Error(reason.clone()),
        }
    }
}

/// A text between double quotes, with the escapes that Rust's `Debug` writes
/// for a string.
pub uninterp spec fn quoted_text(text: Seq<char>) -> Seq<char>;

/// Quotes a text through `Debug` for `str` (`format!("{:?}", ..)`). The result
/// depends on the text alone.
#[verifier::external_body]
fn quote_text(text: &str) -> (r: String)
    ensures
        r@ == quoted_text(text@),
{
    format!("{:?}", text)
}

/// How a status is named in messages: the variant's name, and for an error
/// its reason in quotes and round brackets behind it.
pub open spec fn status_text(status: StatusView) -> Seq<char> {
    match status {
        StatusView::Creating => "Creating"@,
        StatusView::Running => "Running"@,
        StatusView::Stopping => "Stopping"@,
        StatusView::Stopped => "Stopped"@,
        StatusView::Error(reason) => "Error("@ + quoted_text(reason) + ")"@,
    }
}

/// How a status is written on the wire: the variant's name in lower case.
pub open spec fn status_tag(status: StatusView) -> Seq<char> {
    match status {
        StatusView::Creating => "creating"@,
        StatusView::Running => "running"@,
        StatusView::Stopping => "stopping"@,
        StatusView::Stopped => "stopped"@,
        StatusView::Error(_) => "error"@,
    }
}

impl EnvironmentStatus {
    /// The status as messages name it.
    pub fn describe(&self) -> (r: String)
        ensures
            r@ == status_text(self@),
    {
        match self {
            EnvironmentStatus::Creating => String::from_str("Creating"),
            EnvironmentStatus::Running => String::from_str("Running"),
            EnvironmentStatus::Stopping => String::from_str("Stopping"),
            EnvironmentStatus::Stopped => String::from_str("Stopped"),
            EnvironmentStatus::Error(reason) => {
                let quoted = quote_text(reason.as_str());
                join3("Error(", quoted.as_str(), ")")
            },
        }
    }

    /// The status as the wire names it.
    pub fn tag(&self) -> (r: &'static str)
        ensures
            r@ == status_tag(self@),
    {
        match self {
            EnvironmentStatus::Creating => "creating",
            EnvironmentStatus::Running => "running",
            EnvironmentStatus::Stopping => "stopping",
            EnvironmentStatus::Stopped => "stopped",
            EnvironmentStatus::Error(_) => "error",
        }
    }

    /// Tells whether two statuses are the same, reason included.
    pub fn same_as(&self, other: &EnvironmentStatus) -> (r: bool)
        ensures
            r == (self@ == other@),
    {
        match (self, other) {
            (EnvironmentStatus::Creating, EnvironmentStatus::Creating) => true,
            (EnvironmentStatus::Running, EnvironmentStatus::Running) => true,
            (EnvironmentStatus::Stopping, EnvironmentStatus::Stopping) => true,
            (EnvironmentStatus::Stopped, EnvironmentStatus::Stopped) => true,
            (EnvironmentStatus::Error(a), EnvironmentStatus::Error(b)) => *a == *b,
            _ => false,
        }
    }
}

/// Handle to a container environment.
#[derive(Debug)]
pub struct EnvironmentHandle {
    /// Unique environment identifier.
    pub env_id: String,
    /// Identifier that the container engine gave the container.
    pub container_id: String,
    /// Project root path on the host.
    pub project_root: String,
    /// Mount path inside the container.
    pub mount_path: String,
    /// Creation time.
    pub created_at: Timestamp,
    /// Current status.
    pub status: EnvironmentStatus,
    /// Container image used.
    pub image: String,
    /// Environment variables.
    pub env_vars: EnvVars,
}

/// The mathematical counterpart of [`EnvironmentHandle`].
pub struct HandleView {
    pub env_id: Seq<char>,
    pub container_id: Seq<char>,
    pub project_root: Seq<char>,
    pub mount_path: Seq<char>,
    pub created_at: Timestamp,
    pub status: StatusView,
    pub image: Seq<char>,
    pub env_vars: Map<Seq<char>, Seq<char>>,
}

impl View for EnvironmentHandle {
    type V = HandleView;

    open spec fn view(&self) -> HandleView {
        HandleView {
            env_id: self.env_id@,
            container_id: self.container_id@,
            project_root: self.project_root@,
            mount_path: self.mount_path@,
            created_at: self.created_at,
            status: self.status@,
            image: self.image@,
            env_vars: self.env_vars@,
        }
    }
}

impl Clone for EnvironmentHandle {
    fn clone(&self) -> (r: Self)
        ensures
            r@ == self@,
    {
        EnvironmentHandle {
            env_id: self.env_id.clone(),
            container_id: self.container_id.clone(),
            project_root: self.project_root.clone(),
            mount_path: self.mount_path.clone(),
            created_at: self.created_at,
            status: self.status.clone(),
            image: self.image.clone(),
            env_vars: self.env_vars.duplicate(),
        }
    }
}

/// The mount path an environment gets when none is asked for.
pub open spec fn default_mount_path() -> Seq<char> {
    "/workdir"@
}

/// The handle of an environment that is being created at `created_at`.
pub open spec fn fresh_handle(
    env_id: Seq<char>,
    container_id: Seq<char>,
    project_root: Seq<char>,
    image: Seq<char>,
    created_at: Timestamp,
) -> HandleView {
    HandleView {
        env_id,
        container_id,
        project_root,
        mount_path: default_mount_path(),
        created_at,
        status: StatusView::Creating,
        image,
        env_vars: Map::empty(),
    }
}

impl EnvironmentHandle {
    /// Creates the handle of a new environment, stamped with the current
    /// time.
    pub fn new(env_id: &str, container_id: &str, project_root: &str, image: &str) -> (r: Self)
        ensures
            r@ == fresh_handle(env_id@, container_id@, project_root@, image@, r.created_at),
    {
        Self::created_at(env_id, container_id, project_root, image, current_time())
    }

    /// Creates the handle of a new environment with a given creation time.
    pub fn created_at(
        env_id: &str,
        container_id: &str,
        project_root: &str,
        image: &str,
        created_at: Timestamp,
    ) -> (r: Self)
        ensures
            r@ == fresh_handle(env_id@, container_id@, project_root@, image@, created_at),
    {
        EnvironmentHandle {
            env_id: String::from_str(env_id),
            container_id: String::from_str(container_id),
            project_root: String::from_str(project_root),
            mount_path: String::from_str("/workdir"),
            created_at,
            status: EnvironmentStatus::Creating,
            image: String::from_str(image),
            env_vars: EnvVars::new(),
        }
    }

    /// Update the status.
    pub fn set_status(&mut self, status: EnvironmentStatus)
        ensures
            final(self)@ == (HandleView { status: status@, ..old(self)@ }),
    {
        self.status = status;
    }

    /// Add environment variables; a variable that was set gets the new
    /// value.
    pub fn add_env_vars(&mut self, vars: &EnvVars)
        ensures
            final(self)@ == (HandleView {
                env_vars: old(self)@.env_vars.union_prefer_right(vars@),
                ..old(self)@
            }),
    {
        self.env_vars.extend(vars);
    }

    /// Check if environment is running.
    pub fn is_running(&self) -> (r: bool)
        ensures
            r == (self@.status == StatusView::Running),
    {
        match self.status {
            EnvironmentStatus::Running => true,
            _ => false,
        }
    }

    /// Check if environment is in error state.
    pub fn is_error(&self) -> (r: bool)
        ensures
            r == (self@.status is Error),
    {
        match self.status {
            EnvironmentStatus::Error(_) => true,
            _ => false,
        }
    }
}

} // verus!
