//! Container-backed development environments behind a JSON-RPC protocol.
//!
//! The library holds the protocol engine and the rules of the environments:
//! the framing of messages on a byte stream, the dispatch of requests to
//! handlers, the registry of environments, and the step-by-step creation of an
//! environment with its cleanup on failure. It reads nothing from the machine
//! but the clock, and writes nothing. A handler that needs a collaborator (the
//! container engine, the file system) hands back a description of the work, and
//! is resumed with the reply.

pub mod assoc;
pub mod decimal;
pub mod environment;
pub mod git;
pub mod json;
pub mod mcp;
pub mod podman;
pub mod text;
