//! The lifecycle handle: a one-way state machine from built through running
//! to stopped, owning the single-use shutdown sender and the background
//! task's completion reference.

use crate::error::AppError;
use std::future::Future;
use std::task::Poll;
use tokio::runtime::Handle;
use tokio::sync::oneshot::error::RecvError;
use tokio::sync::oneshot::Sender;
use tokio::task::JoinHandle;
use vstd::prelude::*;

verus! {

/// What a service task completes with: nothing, or the listener's failure.
pub type ServeResult = Result<(), std::io::Error>;

/// The completion reference of a spawned service task.
pub type Completion = JoinHandle<ServeResult>;

/// The state a handle reports.
#[derive(Clone, Copy, Debug, PartialEq, Eq, Structural)]
pub enum State {
    /// The socket is bound and nothing is serving yet.
    Built,
    /// The service task was spawned and has not been stopped.
    Running,
    /// The service was stopped; the handle holds nothing any more.
    Stopped,
}

impl State {
    /// The state's name as callers see it.
    pub open spec fn name(self) -> Seq<char> {
        match self {
            State::Built => "built"@,
            State::Running => "running"@,
            State::Stopped => "stopped"@,
        }
    }

    /// The state's name.
    pub fn as_str(self) -> (text: &'static str)
        ensures
            text@ == self.name(),
    {
        match self {
            State::Built => "built",
            State::Running => "running",
            State::Stopped => "stopped",
        }
    }
}

/// The two references an owner holds to a running service task: the
/// capability to ask it to shut down, and its completion.
pub struct ServiceTask {
    /// The single-use shutdown sender.
    pub shutdown: Sender<()>,
    /// The task's completion reference.
    pub join: Completion,
}

impl ServiceTask {
    /// Asks the task to shut down, which uses up the sender, and hands back
    /// the completion reference for the caller to wait on. A task that has
    /// already ended no longer listens; its completion is handed back all
    /// the same.
    pub fn shut_down(self) -> (join: Completion)
        ensures
            join == self.join,
    {
        let _ = self.shutdown.send(());
        self.join
    }
}

/// What a handle holds in each state. `F` is the serve future: the bound,
/// not yet started service.
pub enum Lifecycle<F> {
    /// The unstarted serve future, and the shutdown sender that goes with it.
    Built { serve: F, shutdown: Sender<()> },
    /// The references to the spawned task.
    Running(ServiceTask),
    /// Nothing: both references were used up by the stop.
    Stopped,
}

/// The owner of one service instance.
pub struct ServerHandle<F> {
    /// The port the service is bound to.
    pub port: u16,
    /// What the handle currently holds.
    pub stage: Lifecycle<F>,
}

impl<F> ServerHandle<F> {
    /// The state of the handle.
    pub open spec fn state(&self) -> State {
        match self.stage {
            Lifecycle::Built { .. } => State::Built,
            Lifecycle::Running(_) => State::Running,
            Lifecycle::Stopped => State::Stopped,
        }
    }

    /// The serve future, while it has not been handed to the scheduler.
    pub open spec fn serve(&self) -> Option<F> {
        match self.stage {
            Lifecycle::Built { serve, .. } => Some(serve),
            _ => None,
        }
    }

    /// The shutdown sender, while it can be exercised: from the start until
    /// the stop.
    pub open spec fn shutdown(&self) -> Option<Sender<()>> {
        match self.stage {
            Lifecycle::Running(task) => Some(task.shutdown),
            _ => None,
        }
    }

    /// The task's completion reference, from the start until the stop.
    pub open spec fn join(&self) -> Option<Completion> {
        match self.stage {
            Lifecycle::Running(task) => Some(task.join),
            _ => None,
        }
    }

    /// How `start` relates the handle before and after it to its result.
    /// A built handle becomes running, keeps its port and holds the sender
    /// it was built with; the completion reference is whichever the
    /// scheduler returned. Any other handle is refused and left as it was.
    pub open spec fn start_step(pre: Self, post: Self, res: Result<(), AppError>) -> bool {
        match pre.stage {
            Lifecycle::Built { serve, shutdown } => {
                &&& res is Ok
                &&& post.port == pre.port
                &&& post.state() == State::Running
                &&& post.shutdown() == Some(shutdown)
            },
            _ => res == Err::<(), AppError>(AppError::ServerRunning) && post == pre,
        }
    }

    /// How `stop` relates the handle before and after it to its result.
    /// A running handle gives up both references, hands back its completion
    /// reference and is stopped; any other handle is refused and left as it
    /// was.
    pub open spec fn stop_step(pre: Self, post: Self, res: Result<Completion, AppError>) -> bool {
        match pre.stage {
            Lifecycle::Running(task) => {
                &&& res == Ok::<Completion, AppError>(task.join)
                &&& post == (ServerHandle { port: pre.port, stage: Lifecycle::<F>::Stopped })
            },
            _ => res == Err::<Completion, AppError>(AppError::ServerNotRunning) && post == pre,
        }
    }

    /// The state of the handle.
    pub fn current_state(&self) -> (state: State)
        ensures
            state == self.state(),
    {
        match &self.stage {
            Lifecycle::Built { .. } => State::Built,
            Lifecycle::Running(_) => State::Running,
            Lifecycle::Stopped => State::Stopped,
        }
    }

    /// The state's name: `"built"`, `"running"` or `"stopped"`. A pure read:
    /// the handle is not changed and nothing is waited for.
    pub fn status(&self) -> (text: String)
        ensures
            text@ == self.state().name(),
    {
        self.current_state().as_str().to_owned()
    }

    /// Stops a running service: sends the shutdown signal, which uses up the
    /// sender, and hands back the task's completion reference. The caller
    /// waits on it and passes what it resolved to to `finish_stop`.
    ///
    /// A handle that is not running, because it was never started or was
    /// stopped before, is refused with `ServerNotRunning` and not changed.
    pub fn stop(&mut self) -> (res: Result<Completion, AppError>)
        ensures
            Self::stop_step(*old(self), *final(self), res),
    {
        let mut stage = Lifecycle::Stopped;
        std::mem::swap(&mut self.stage, &mut stage);
        match stage {
            Lifecycle::Running(task) => Ok(task.shut_down()),
            other => {
                self.stage = other;
                Err(AppError::ServerNotRunning)
            },
        }
    }
}

impl<F: Future<Output = ServeResult> + Send + 'static> ServerHandle<F> {
    /// Starts a built service: hands the serve future to the scheduler and
    /// records the task's completion reference. Returns as soon as the task
    /// is scheduled.
    ///
    /// A handle that was started before is refused with `ServerRunning` and
    /// not changed, so the task it holds is not disturbed.
    pub fn start(&mut self, scheduler: &Handle) -> (res: Result<(), AppError>)
        ensures
            Self::start_step(*old(self), *final(self), res),
    {
        let mut stage = Lifecycle::Stopped;
        std::mem::swap(&mut self.stage, &mut stage);
        match stage {
            Lifecycle::Built { serve, shutdown } => {
                let join = scheduler.spawn(serve);
                self.stage = Lifecycle::Running(ServiceTask { shutdown, join });
                Ok(())
            },
            other => {
                self.stage = other;
                Err(AppError::ServerRunning)
            },
        }
    }
}

/// Wraps freshly built components in a handle. `components` is what binding
/// the listener on `port` gave: the serve future with its shutdown sender,
/// or the reason the socket could not be bound.
pub open spec fn built_handle<F>(
    port: u16,
    components: Result<(F, Sender<()>), std::io::Error>,
) -> Result<ServerHandle<F>, AppError> {
    match components {
        Ok((serve, shutdown)) => Ok(
            ServerHandle { port, stage: Lifecycle::Built { serve, shutdown } },
        ),
        Err(cause) => Err(AppError::IoError(cause)),
    }
}

/// Makes the handle of a service from the outcome of binding it: a built
/// handle on success, the bind failure as `IoError` otherwise. Nothing is
/// serving yet when this returns.
pub fn build_server_handle<F>(
    port: u16,
    components: Result<(F, Sender<()>), std::io::Error>,
) -> (res: Result<ServerHandle<F>, AppError>)
    ensures
        res == built_handle(port, components),
{
    match components {
        Ok((serve, shutdown)) => Ok(
            ServerHandle { port, stage: Lifecycle::Built { serve, shutdown } },
        ),
        Err(cause) => Err(AppError::IoError(cause)),
    }
}

/// What the shutdown future of a service task resolves to, given what
/// polling the receiving half of the shutdown channel gave. The task is to
/// shut down as soon as the receiver resolves at all: on a signal, and
/// likewise when the sender was dropped without one.
pub open spec fn shutdown_resolution(polled: Poll<Result<(), RecvError>>) -> Poll<()> {
    match polled {
        Poll::Ready(_) => Poll::Ready(()),
        Poll::Pending => Poll::Pending,
    }
}

/// One poll of a service task's shutdown future, from one poll of the
/// receiving half of its shutdown channel.
pub fn resolve_shutdown(polled: Poll<Result<(), RecvError>>) -> (res: Poll<()>)
    ensures
        res == shutdown_resolution(polled),
{
    match polled {
        Poll::Ready(_) => Poll::Ready(()),
        Poll::Pending => Poll::Pending,
    }
}

} // verus!
