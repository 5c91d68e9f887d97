//! Lifecycle control for an embeddable network service.
//!
//! A service is bound by the caller, wrapped in a [`ServerHandle`], started
//! on a Tokio scheduler, queried with `status`, and shut down gracefully
//! exactly once. The handle is a three-state machine (built, running,
//! stopped); every transition is specified and proved. [`Server`] and
//! [`PyServer`] adapt the handle for callers that bind and start in one step.
//!
//! Waiting is left to the caller: `stop` delivers the shutdown signal and
//! hands back the task's completion reference, and [`finish_stop`] turns what
//! that reference resolved to into the result of the stop.

pub mod address;
pub mod binding;
pub mod error;
pub mod laws;
pub mod lifecycle;
pub mod runtime;
pub mod server;

pub use address::{bind_address, DEFAULT_PORT};
pub use binding::{HostError, HostErrorKind, PyAppErr, PyServer};
pub use error::{finish_stop, AppError};
pub use lifecycle::{
    build_server_handle, resolve_shutdown, Completion, Lifecycle, ServeResult, ServerHandle,
    ServiceTask, State,
};
pub use server::Server;
