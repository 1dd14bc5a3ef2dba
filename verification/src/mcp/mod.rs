pub mod dispatch_laws;
pub mod encode;
pub mod handlers;
pub mod lifecycle_laws;
pub mod params;
pub mod server;
pub mod transport;
pub mod transport_laws;
pub mod types;
