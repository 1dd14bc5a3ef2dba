pub mod client;
pub mod container;
pub mod diagnostics;
pub mod engine;
pub mod image;

pub use diagnostics::PodmanDiagnostics;
