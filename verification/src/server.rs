//! A service that is bound and started in one step, for callers that block.

use crate::error::AppError;
use crate::lifecycle::{Completion, ServeResult, ServiceTask, State};
use std::future::Future;
use tokio::runtime::Handle;
use tokio::sync::oneshot::Sender;
use vstd::prelude::*;

verus! {

/// A started service and the references to its task. It is running from
/// construction until it is stopped or disposed of.
pub struct Server {
    /// The port the service is bound to.
    pub port: u16,
    /// The references to the running task; `None` once stopped.
    pub task: Option<ServiceTask>,
}

impl Server {
    /// The state of the server: running while it holds its task, stopped
    /// afterwards.
    pub open spec fn state(&self) -> State {
        if self.task is Some {
            State::Running
        } else {
            State::Stopped
        }
    }

    /// How `new` relates its result to the outcome of binding. On a bind
    /// failure it is that failure as `IoError`; otherwise a running server
    /// on `port` that holds the sender it was built with and the completion
    /// reference that the scheduler returned.
    pub open spec fn is_started<F>(
        port: u16,
        components: Result<(F, Sender<()>), std::io::Error>,
        res: Result<Server, AppError>,
    ) -> bool {
        match components {
            Ok((serve, shutdown)) => {
                &&& res matches Ok(server)
                &&& server.port == port
                &&& server.task matches Some(task)
                &&& task.shutdown == shutdown
            },
            Err(cause) => res == Err::<Server, AppError>(AppError::IoError(cause)),
        }
    }

    /// How `stop` relates the server before and after it to its result. A
    /// running server gives up its task, hands back the completion
    /// reference and is stopped; a stopped one is refused and left as it was.
    pub open spec fn stop_step(pre: Server, post: Server, res: Result<Completion, AppError>) -> bool {
        match pre.task {
            Some(task) => {
                &&& res == Ok::<Completion, AppError>(task.join)
                &&& post == (Server { port: pre.port, task: None })
            },
            None => res == Err::<Completion, AppError>(AppError::ServerNotRunning) && post == pre,
        }
    }

    /// Starts the service that binding on `port` gave, on `scheduler`. A
    /// bind failure is returned as `IoError` and nothing is spawned.
    pub fn new<F>(
        port: u16,
        components: Result<(F, Sender<()>), std::io::Error>,
        scheduler: &Handle,
    ) -> (res: Result<Server, AppError>) where F: Future<Output = ServeResult> + Send + 'static
        ensures
            Self::is_started(port, components, res),
    {
        match components {
            Ok((serve, shutdown)) => {
                let join = scheduler.spawn(serve);
                Ok(Server { port, task: Some(ServiceTask { shutdown, join }) })
            },
            Err(cause) => Err(AppError::IoError(cause)),
        }
    }

    /// `"running"` or `"stopped"`. A pure read.
    pub fn status(&self) -> (text: String)
        ensures
            text@ == self.state().name(),
    {
        if self.task.is_some() {
            State::Running.as_str().to_owned()
        } else {
            State::Stopped.as_str().to_owned()
        }
    }

    /// Stops the service: sends the shutdown signal and hands back the
    /// task's completion reference, for the caller to block on and pass to
    /// `finish_stop`. A server that was already stopped is refused with
    /// `ServerNotRunning`.
    pub fn stop(&mut self) -> (res: Result<Completion, AppError>)
        ensures
            Self::stop_step(*old(self), *final(self), res),
    {
        match self.task.take() {
            Some(task) => Ok(task.shut_down()),
            None => Err(AppError::ServerNotRunning),
        }
    }

    /// The cleanup owed when the server is discarded: a running server is
    /// signalled and its completion reference handed back to be waited on;
    /// a stopped one needs nothing. Unlike `stop` this never fails, as
    /// nobody is left to be told.
    pub fn dispose(&mut self) -> (pending: Option<Completion>)
        ensures
            pending == old(self).pending_completion(),
            *final(self) == (Server { port: old(self).port, task: None }),
    {
        match self.task.take() {
            Some(task) => Some(task.shut_down()),
            None => None,
        }
    }

    /// The completion reference that is still to be waited on.
    pub open spec fn pending_completion(&self) -> Option<Completion> {
        match self.task {
            Some(task) => Some(task.join),
            None => None,
        }
    }
}

} // verus!
