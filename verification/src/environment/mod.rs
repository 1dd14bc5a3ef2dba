pub mod codec;
pub mod handle;
pub mod registry;
pub mod registry_laws;
pub mod vars;

pub use handle::{EnvironmentHandle, EnvironmentStatus};
pub use registry::EnvironmentRegistry;
