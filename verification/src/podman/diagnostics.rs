use crate::json::{json_parse, value_get, value_str, Json, JsonValue};
use crate::text::{join2, join3};
use vstd::prelude::*;
use vstd::string::StringExecFns;

verus! {

/// Podman availability status.
#[derive(Debug, Clone)]
pub struct PodmanStatus {
    /// Whether Podman command is available.
    pub available: bool,
    /// Podman version if available.
    pub version: Option<String>,
    /// Whether Podman service is running.
    pub service_running: bool,
    /// Detected socket path.
    pub socket_path: Option<String>,
}

/// The text of a string that may be absent.
pub open spec fn opt_text(s: Option<String>) -> Option<Seq<char>> {
    match s {
        Some(s) => Some(s@),
        None => None,
    }
}

/// The mathematical counterpart of [`PodmanStatus`].
pub struct PodmanStatusView {
    pub available: bool,
    pub version: Option<Seq<char>>,
    pub service_running: bool,
    pub socket_path: Option<Seq<char>>,
}

impl View for PodmanStatus {
    type V = PodmanStatusView;

    open spec fn view(&self) -> PodmanStatusView {
        PodmanStatusView {
            available: self.available,
            version: opt_text(self.version),
            service_running: self.service_running,
            socket_path: opt_text(self.socket_path),
        }
    }
}

/// What running `podman version --format json` gave.
#[derive(Debug)]
pub struct VersionProbe {
    /// Whether the command ended with success.
    pub success: bool,
    /// What the command wrote to its standard output.
    pub stdout: String,
}

/// The system-wide Podman socket.
pub open spec fn default_socket() -> Seq<char> {
    "unix:///run/podman/podman.sock"@
}

/// The Podman socket of the user with the given id.
pub open spec fn user_socket(uid: Seq<char>) -> Seq<char> {
    "unix:///run/user/"@ + uid + "/podman/podman.sock"@
}

/// The file behind the Podman socket of the user with the given id.
pub open spec fn user_socket_file(uid: Seq<char>) -> Seq<char> {
    "/run/user/"@ + uid + "/podman/podman.sock"@
}

/// How to start Podman on Linux.
pub open spec fn startup_instructions() -> Seq<char> {
    "Podman is not running. Please start it with one of these methods:\n\n1. For rootless mode (recommended):\n   systemctl --user start podman.socket\n\n2. For root mode:\n   sudo systemctl start podman.socket\n\n3. For API service:\n   podman system service --time=0 unix:///tmp/podman.sock\n\nFor more information: https://podman.io/docs/installation#linux"@
}

/// How to install Podman on Linux.
pub open spec fn installation_instructions() -> Seq<char> {
    "Install with your package manager:\n  Ubuntu/Debian: sudo apt-get install podman\n  Fedora/RHEL: sudo dnf install podman\n  Arch: sudo pacman -S podman"@
}

/// The version that the output of the version command reports: the string
/// under `Client`, `Version`, or `unknown` where the output is JSON without
/// one; no version where the command failed or wrote no JSON.
pub open spec fn probed_version(success: bool, parsed: Result<JsonValue, Seq<char>>) -> Option<
    Seq<char>,
> {
    if !success {
        None
    } else {
        match parsed {
            Err(_) => None,
            Ok(doc) => match value_get(doc, "Client"@) {
                None => Some("unknown"@),
                Some(client) => match value_get(client, "Version"@) {
                    None => Some("unknown"@),
                    Some(version) => match value_str(version) {
                        Some(text) => Some(text),
                        None => Some("unknown"@),
                    },
                },
            },
        }
    }
}

/// The status that the probes add up to. Where the version command could
/// not be run at all Podman is not available, and nothing else is looked
/// at.
pub open spec fn spec_status(
    probe: Option<(bool, Result<JsonValue, Seq<char>>)>,
    service_running: bool,
    socket_path: Option<Seq<char>>,
) -> PodmanStatusView {
    match probe {
        None => PodmanStatusView {
            available: false,
            version: None,
            service_running: false,
            socket_path: None,
        },
        Some((success, parsed)) => PodmanStatusView {
            available: true,
            version: probed_version(success, parsed),
            service_running,
            socket_path,
        },
    }
}

/// The socket to connect to: the system socket where its file exists, else
/// the user's socket where its file exists, else what `DOCKER_HOST` names,
/// else what `CONTAINER_HOST` names.
pub open spec fn spec_socket_path(
    system_socket_exists: bool,
    uid: Seq<char>,
    user_socket_exists: bool,
    docker_host: Option<Seq<char>>,
    container_host: Option<Seq<char>>,
) -> Option<Seq<char>> {
    if system_socket_exists {
        Some(default_socket())
    } else if user_socket_exists {
        Some(user_socket(uid))
    } else if docker_host.is_some() {
        docker_host
    } else {
        container_host
    }
}

/// What a diagnosis says of a status: Podman must be installed, and its
/// service must run.
pub open spec fn spec_diagnose(status: PodmanStatusView) -> Result<(), Seq<char>> {
    if !status.available {
        Err(
            "Podman is not installed. Please install Podman first.\n\n"@
                + installation_instructions(),
        )
    } else if !status.service_running {
        Err("Podman service is not running.\n\n"@ + startup_instructions())
    } else {
        Ok(())
    }
}

/// Podman diagnostics and pre-check utilities.
pub struct PodmanDiagnostics;

impl PodmanDiagnostics {
    /// Get startup instructions for the current platform.
    pub fn get_startup_instructions() -> (r: String)
        ensures
            r@ == startup_instructions(),
    {
        String::from_str(
            "Podman is not running. Please start it with one of these methods:\n\n1. For rootless mode (recommended):\n   systemctl --user start podman.socket\n\n2. For root mode:\n   sudo systemctl start podman.socket\n\n3. For API service:\n   podman system service --time=0 unix:///tmp/podman.sock\n\nFor more information: https://podman.io/docs/installation#linux",
        )
    }

    /// Get installation instructions for the current platform.
    pub fn get_installation_instructions() -> (r: String)
        ensures
            r@ == installation_instructions(),
    {
        String::from_str(
            "Install with your package manager:\n  Ubuntu/Debian: sudo apt-get install podman\n  Fedora/RHEL: sudo dnf install podman\n  Arch: sudo pacman -S podman",
        )
    }

    /// The version that a parsed output of the version command reports.
    pub fn version_from_output(success: bool, parsed: Result<Json, String>) -> (r: Option<String>)
        ensures
            opt_text(r) == probed_version(
                success,
                match parsed {
                    Ok(doc) => Ok(doc@),
                    Err(e) => Err(e@),
                },
            ),
    {
        if !success {
            return None;
        }
        let doc = match parsed {
            Ok(doc) => doc,
            Err(_) => {
                return None;
            },
        };
        let found = match doc.get("Client") {
            Some(client) => match client.get("Version") {
                Some(version) => version.as_str(),
                None => None,
            },
            None => None,
        };
        match found {
            Some(text) => Some(String::from_str(text)),
            None => Some(String::from_str("unknown")),
        }
    }

    /// Adds the probes up to a status. `probe` is `None` where the version
    /// command could not be run.
    pub fn check_podman_available(
        probe: Option<VersionProbe>,
        service_running: bool,
        socket_path: Option<String>,
    ) -> (status: PodmanStatus)
        ensures
            status@ == spec_status(
                match probe {
                    Some(p) => Some((p.success, json_parse(p.stdout@))),
                    None => None,
                },
                service_running,
                opt_text(socket_path),
            ),
    {
        match probe {
            None => PodmanStatus {
                available: false,
                version: None,
                service_running: false,
                socket_path: None,
            },
            Some(p) => {
                let parsed = Json::parse(p.stdout.as_str());
                PodmanStatus {
                    available: true,
                    version: Self::version_from_output(p.success, parsed),
                    service_running,
                    socket_path,
                }
            },
        }
    }

    /// The socket of the user with the given id.
    pub fn user_socket(uid: &str) -> (r: String)
        ensures
            r@ == user_socket(uid@),
    {
        join3("unix:///run/user/", uid, "/podman/podman.sock")
    }

    /// The file behind the socket of the user with the given id.
    pub fn user_socket_file(uid: &str) -> (r: String)
        ensures
            r@ == user_socket_file(uid@),
    {
        join3("/run/user/", uid, "/podman/podman.sock")
    }

    /// Detect the appropriate socket path from what was found on the
    /// host.
    pub fn detect_socket_path(
        system_socket_exists: bool,
        uid: &str,
        user_socket_exists: bool,
        docker_host: Option<String>,
        container_host: Option<String>,
    ) -> (r: Option<String>)
        ensures
            opt_text(r) == spec_socket_path(
                system_socket_exists,
                uid@,
                user_socket_exists,
                opt_text(docker_host),
                opt_text(container_host),
            ),
    {
        if system_socket_exists {
            Some(String::from_str("unix:///run/podman/podman.sock"))
        } else if user_socket_exists {
            Some(Self::user_socket(uid))
        } else if docker_host.is_some() {
            docker_host
        } else {
            container_host
        }
    }

    /// Diagnose and report Podman issues.
    pub fn diagnose(status: &PodmanStatus) -> (r: Result<(), String>)
        ensures
            match r {
                Ok(()) => spec_diagnose(status@) == Ok::<(), Seq<char>>(()),
                Err(e) => spec_diagnose(status@) == Err::<(), Seq<char>>(e@),
            },
    {
        if !status.available {
            let how = Self::get_installation_instructions();
            Err(join2("Podman is not installed. Please install Podman first.\n\n", how.as_str()))
        } else if !status.service_running {
            let how = Self::get_startup_instructions();
            Err(join2("Podman service is not running.\n\n", how.as_str()))
        } else {
            Ok(())
        }
    }
}

} // verus!
