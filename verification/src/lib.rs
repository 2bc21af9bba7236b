//! Supervisor for a local backend service: it mints the one-time credential,
//! plans the backend's launch, keeps the session descriptor and the process
//! handle in two single-slot registries, and decides each step of startup and
//! shutdown.

pub mod digits;
pub mod credential;
pub mod registry;
pub mod launch;
pub mod lifecycle;
