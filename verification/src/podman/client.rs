use crate::text::join2;
use vstd::prelude::*;
use vstd::string::StringExecFns;

verus! {

/// The seconds a first ping may take.
pub const PING_TIMEOUT_SECS: u64 = 5;

/// The seconds a call to the engine may take.
pub const CONNECT_TIMEOUT_SECS: u64 = 120;

/// What came of the ping that verifies a new connection.
#[derive(Debug, Clone, PartialEq, Eq)]
pub enum Ping {
    Answered,
    /// The engine refused, with its own words.
    Refused(String),
    /// No answer came in time.
    TimedOut,
}

/// Whether a connection stands after its first ping, and if not, why.
pub open spec fn spec_verify_connection(ping: Ping) -> Result<(), Seq<char>> {
    match ping {
        Ping::Answered => Ok(()),
        Ping::Refused(reason) => Err("Failed to ping Podman: "@ + reason@),
        Ping::TimedOut => Err("Podman ping timeout - service may not be running"@),
    }
}

/// Verify the connection is working, from what came of the first ping.
pub fn verify_connection(ping: &Ping) -> (r: Result<(), String>)
    ensures
        match r {
            Ok(()) => spec_verify_connection(*ping) == Ok::<(), Seq<char>>(()),
            Err(e) => spec_verify_connection(*ping) == Err::<(), Seq<char>>(e@),
        },
{
    match ping {
        Ping::Answered => Ok(()),
        Ping::Refused(reason) => Err(join2("Failed to ping Podman: ", reason.as_str())),
        Ping::TimedOut => Err(String::from_str("Podman ping timeout - service may not be running")),
    }
}

} // verus!
