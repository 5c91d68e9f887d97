//! The adapter for a host program that drives the service from outside:
//! the server object it holds, and the errors as the host is to see them.

use crate::error::AppError;
use crate::lifecycle::{build_server_handle, Completion, Lifecycle, ServeResult, ServerHandle, State};
use std::future::Future;
use tokio::runtime::Handle;
use tokio::sync::oneshot::Sender;
use tokio::task::JoinError;
use vstd::prelude::*;
use vstd::std_specs::convert::FromSpecImpl;
use vstd::string::to_string_from_display_ensures;

verus! {

/// An error on its way to the host.
#[derive(Debug)]
pub enum PyAppErr {
    /// An error of the lifecycle controller.
    AppError(AppError),
}

/// The kind of exception the host raises for an error.
#[derive(Clone, Copy, Debug, PartialEq, Eq, Structural)]
pub enum HostErrorKind {
    /// The host's I/O error.
    IoError,
    /// The host's general exception.
    Exception,
    /// The exception for an operation that the server's state does not
    /// allow.
    InvalidServerState,
}

/// An error as the host sees it: the kind of exception and its message.
#[derive(Debug)]
pub struct HostError {
    pub kind: HostErrorKind,
    pub message: String,
}

impl PyAppErr {
    /// Whether `text` is how this error reads: a fixed prefix, then the
    /// wrapped error's own text.
    pub open spec fn is_message(&self, text: Seq<char>) -> bool {
        match self {
            PyAppErr::AppError(err) => exists|inner: Seq<char>|
                #[trigger] err.is_message(inner) && text == "App error: "@ + inner,
        }
    }

    /// The error as text.
    pub fn to_string(&self) -> (text: String)
        ensures
            self.is_message(text@),
    {
        match self {
            PyAppErr::AppError(err) => {
                let inner = err.to_string();
                "App error: ".to_owned().concat(inner.as_str())
            },
        }
    }

    /// The kind of exception the host raises for this error: its I/O error
    /// for a failed bind or a failed listener, its general exception for a
    /// task that ended abnormally, and the invalid-state exception for a
    /// start or stop that the server's state does not allow.
    pub open spec fn host_kind(&self) -> HostErrorKind {
        match self {
            PyAppErr::AppError(AppError::IoError(_)) => HostErrorKind::IoError,
            PyAppErr::AppError(AppError::JoinError(_)) => HostErrorKind::Exception,
            PyAppErr::AppError(AppError::ServerNotRunning) => HostErrorKind::InvalidServerState,
            PyAppErr::AppError(AppError::ServerRunning) => HostErrorKind::InvalidServerState,
        }
    }

    /// Whether `text` is the message the host's exception carries: the
    /// cause's own `Display` text for a wrapped cause, a fixed sentence for
    /// the two state errors.
    pub open spec fn is_host_message(&self, text: Seq<char>) -> bool {
        match self {
            PyAppErr::AppError(AppError::IoError(e)) => exists|cause: String|
                #[trigger] to_string_from_display_ensures::<std::io::Error>(e, cause) && text
                    == cause@,
            PyAppErr::AppError(AppError::JoinError(e)) => exists|cause: String|
                #[trigger] to_string_from_display_ensures::<JoinError>(e, cause) && text == cause@,
            PyAppErr::AppError(AppError::ServerNotRunning) => text == "Server is not running"@,
            PyAppErr::AppError(AppError::ServerRunning) => text == "Server is running"@,
        }
    }

    /// The error as the host is to see it.
    pub fn host_error(&self) -> (host: HostError)
        ensures
            host.kind == self.host_kind(),
            self.is_host_message(host.message@),
    {
        match self {
            PyAppErr::AppError(AppError::IoError(e)) => HostError {
                kind: HostErrorKind::IoError,
                message: e.to_string(),
            },
            PyAppErr::AppError(AppError::JoinError(e)) => HostError {
                kind: HostErrorKind::Exception,
                message: e.to_string(),
            },
            PyAppErr::AppError(AppError::ServerNotRunning) => HostError {
                kind: HostErrorKind::InvalidServerState,
                message: "Server is not running".to_owned(),
            },
            PyAppErr::AppError(AppError::ServerRunning) => HostError {
                kind: HostErrorKind::InvalidServerState,
                message: "Server is running".to_owned(),
            },
        }
    }
}

impl From<AppError> for PyAppErr {
    fn from(err: AppError) -> (wrapped: PyAppErr) {
        PyAppErr::AppError(err)
    }
}

impl FromSpecImpl<AppError> for PyAppErr {
    open spec fn obeys_from_spec() -> bool {
        true
    }

    open spec fn from_spec(err: AppError) -> PyAppErr {
        PyAppErr::AppError(err)
    }
}

/// The server object a host holds. It owns a started handle until the host
/// stops it; afterwards it is empty and reports `"stopped"`.
pub struct PyServer<F> {
    /// The handle of the service; `None` once it was stopped.
    pub handle: Option<ServerHandle<F>>,
}

impl<F> PyServer<F> {
    /// The state the server reports: its handle's, or stopped when it holds
    /// none.
    pub open spec fn state(&self) -> State {
        match self.handle {
            Some(handle) => handle.state(),
            None => State::Stopped,
        }
    }

    /// How `start_server` relates its result to the outcome of binding. On
    /// a bind failure it is that failure; otherwise a server whose handle is
    /// running on `port` with the sender it was built with.
    pub open spec fn is_started(
        port: u16,
        components: Result<(F, Sender<()>), std::io::Error>,
        res: Result<PyServer<F>, PyAppErr>,
    ) -> bool {
        match components {
            Ok((serve, shutdown)) => {
                &&& res matches Ok(server)
                &&& server.handle matches Some(handle)
                &&& handle.port == port
                &&& handle.state() == State::Running
                &&& handle.shutdown() == Some(shutdown)
            },
            Err(cause) => res == Err::<PyServer<F>, PyAppErr>(
                PyAppErr::AppError(AppError::IoError(cause)),
            ),
        }
    }

    /// How `stop` relates the server before and after it to its result. A
    /// server whose handle is running lets go of the handle and hands back
    /// the task's completion reference; any other is refused with
    /// `ServerNotRunning` and left as it was.
    pub open spec fn stop_step(
        pre: PyServer<F>,
        post: PyServer<F>,
        res: Result<Completion, PyAppErr>,
    ) -> bool {
        match pre.handle {
            Some(ServerHandle { port, stage: Lifecycle::Running(task) }) => {
                &&& res == Ok::<Completion, PyAppErr>(task.join)
                &&& post.handle is None
            },
            _ => res == Err::<Completion, PyAppErr>(
                PyAppErr::AppError(AppError::ServerNotRunning),
            ) && post == pre,
        }
    }

    /// `"built"`, `"running"` or `"stopped"`. A pure read.
    pub fn status(&self) -> (text: String)
        ensures
            text@ == self.state().name(),
    {
        match &self.handle {
            Some(handle) => handle.status(),
            None => State::Stopped.as_str().to_owned(),
        }
    }

    /// Stops the service: sends the shutdown signal and hands back the
    /// task's completion reference, which the host's scheduler waits on
    /// before the outcome goes to `finish_stop`.
    pub fn stop(&mut self) -> (res: Result<Completion, PyAppErr>)
        ensures
            Self::stop_step(*old(self), *final(self), res),
    {
        match self.handle.take() {
            Some(mut handle) => match handle.stop() {
                Ok(join) => Ok(join),
                Err(err) => {
                    self.handle = Some(handle);
                    Err(PyAppErr::AppError(err))
                },
            },
            None => Err(PyAppErr::AppError(AppError::ServerNotRunning)),
        }
    }
}

impl<F: Future<Output = ServeResult> + Send + 'static> PyServer<F> {
    /// Makes a server from the outcome of binding on `port` and starts it on
    /// `scheduler`, so that the host never sees it merely built.
    pub fn start_server(
        port: u16,
        components: Result<(F, Sender<()>), std::io::Error>,
        scheduler: &Handle,
    ) -> (res: Result<PyServer<F>, PyAppErr>)
        ensures
            Self::is_started(port, components, res),
    {
        match build_server_handle(port, components) {
            Ok(mut handle) => match handle.start(scheduler) {
                Ok(()) => Ok(PyServer { handle: Some(handle) }),
                Err(err) => Err(PyAppErr::AppError(err)),
            },
            Err(err) => Err(PyAppErr::AppError(err)),
        }
    }
}

} // verus!
