//! What holds of every handle, whatever sequence of calls it goes through.
//! Each law is stated over the relations that `start` and `stop` ensure.

use crate::binding::{PyAppErr, PyServer};
use crate::error::{stop_outcome, AppError};
use crate::lifecycle::{Completion, Lifecycle, ServeResult, ServerHandle, State};
use crate::server::Server;
use tokio::task::JoinError;
use vstd::prelude::*;

verus! {

/// The references a handle holds follow from its state: the serve future is
/// held exactly while built, the shutdown sender and the completion
/// reference exactly while running. Read the other way round, a handle that
/// holds the serve future is built, one that holds a completion reference is
/// running, and one that holds neither is stopped.
pub proof fn references_follow_state<F>(handle: ServerHandle<F>)
    ensures
        handle.serve() is Some <==> handle.state() == State::Built,
        handle.shutdown() is Some <==> handle.state() == State::Running,
        handle.join() is Some <==> handle.state() == State::Running,
        handle.state() == if handle.serve() is Some {
            State::Built
        } else if handle.join() is Some {
            State::Running
        } else {
            State::Stopped
        },
{
}

/// The three states read differently, so a status tells them apart.
pub proof fn state_names_differ(a: State, b: State)
    requires
        a != b,
    ensures
        a.name() != b.name(),
{
    reveal_strlit("built");
    reveal_strlit("running");
    reveal_strlit("stopped");
    assert(State::Built.name().len() == 5);
    assert(State::Running.name()[0] == 'r');
    assert(State::Stopped.name()[0] == 's');
}

/// Reading the status any number of times with no transition in between
/// gives the same text: it is a function of the handle alone.
pub proof fn status_is_repeatable<F>(handle: ServerHandle<F>, first: Seq<char>, second: Seq<char>)
    requires
        first == handle.state().name(),
        second == handle.state().name(),
    ensures
        first == second,
{
}

/// A start on a handle that is running is refused with `ServerRunning`, and
/// the handle still holds the same sender and the same completion
/// reference: the task it owns is not touched.
pub proof fn start_on_running_is_refused<F>(
    pre: ServerHandle<F>,
    post: ServerHandle<F>,
    res: Result<(), AppError>,
)
    requires
        pre.state() == State::Running,
        ServerHandle::start_step(pre, post, res),
    ensures
        res == Err::<(), AppError>(AppError::ServerRunning),
        post == pre,
        post.shutdown() == pre.shutdown(),
        post.join() == pre.join(),
{
}

/// A start succeeds exactly once in the life of a handle: on the built
/// handle. It then leaves the handle running.
pub proof fn start_succeeds_only_when_built<F>(
    pre: ServerHandle<F>,
    post: ServerHandle<F>,
    res: Result<(), AppError>,
)
    requires
        ServerHandle::start_step(pre, post, res),
    ensures
        res is Ok <==> pre.state() == State::Built,
        res is Ok ==> post.state() == State::Running,
        res is Err ==> post == pre,
{
}

/// A stop on a handle that was never started is refused with
/// `ServerNotRunning`, and the handle stays built.
pub proof fn stop_on_built_is_refused<F>(
    pre: ServerHandle<F>,
    post: ServerHandle<F>,
    res: Result<Completion, AppError>,
)
    requires
        pre.state() == State::Built,
        ServerHandle::stop_step(pre, post, res),
    ensures
        res == Err::<Completion, AppError>(AppError::ServerNotRunning),
        post == pre,
{
}

/// Of two stops in a row on a running handle, the first hands back the
/// completion reference and leaves the handle stopped; the second is
/// refused with `ServerNotRunning` and changes nothing.
pub proof fn second_stop_is_refused<F>(
    running: ServerHandle<F>,
    after_first: ServerHandle<F>,
    first: Result<Completion, AppError>,
    after_second: ServerHandle<F>,
    second: Result<Completion, AppError>,
)
    requires
        running.state() == State::Running,
        ServerHandle::stop_step(running, after_first, first),
        ServerHandle::stop_step(after_first, after_second, second),
    ensures
        first is Ok,
        running.join() == Some(first->Ok_0),
        after_first.state() == State::Stopped,
        second == Err::<Completion, AppError>(AppError::ServerNotRunning),
        after_second == after_first,
{
}

/// No call leads out of the stopped state: a stopped handle refuses both
/// start and stop and stays as it is.
pub proof fn stopped_is_terminal<F>(
    stopped: ServerHandle<F>,
    after_start: ServerHandle<F>,
    started: Result<(), AppError>,
    after_stop: ServerHandle<F>,
    halted: Result<Completion, AppError>,
)
    requires
        stopped.state() == State::Stopped,
        ServerHandle::start_step(stopped, after_start, started),
        ServerHandle::stop_step(stopped, after_stop, halted),
    ensures
        started == Err::<(), AppError>(AppError::ServerRunning),
        after_start == stopped,
        halted == Err::<Completion, AppError>(AppError::ServerNotRunning),
        after_stop == stopped,
{
}

/// Neither call changes the port a handle is bound to.
pub proof fn port_is_kept<F>(
    pre: ServerHandle<F>,
    after_start: ServerHandle<F>,
    started: Result<(), AppError>,
    after_stop: ServerHandle<F>,
    halted: Result<Completion, AppError>,
)
    requires
        ServerHandle::start_step(pre, after_start, started),
        ServerHandle::stop_step(pre, after_stop, halted),
    ensures
        after_start.port == pre.port,
        after_stop.port == pre.port,
{
}

/// A stop that was accepted ends well exactly when the task ended well.
/// Otherwise it reports how the task failed, and never a state error: those
/// are decided before anything is waited for.
pub proof fn a_finished_stop_reports_the_task(joined: Result<ServeResult, JoinError>)
    ensures
        stop_outcome(joined) is Ok <==> (joined matches Ok(served) && served is Ok),
        stop_outcome(joined) != Err::<(), AppError>(AppError::ServerNotRunning),
        stop_outcome(joined) != Err::<(), AppError>(AppError::ServerRunning),
{
}

/// A server that was started on construction stops as a running handle on
/// the same task does, and once stopped refuses as a stopped handle does.
pub proof fn a_server_stops_like_a_handle<F>(
    server: Server,
    handle: ServerHandle<F>,
    server_after: Server,
    server_res: Result<Completion, AppError>,
    handle_after: ServerHandle<F>,
    handle_res: Result<Completion, AppError>,
)
    requires
        handle.state() != State::Built,
        server.task == match handle.stage {
            Lifecycle::Running(task) => Some(task),
            _ => None,
        },
        Server::stop_step(server, server_after, server_res),
        ServerHandle::stop_step(handle, handle_after, handle_res),
    ensures
        server.state() == handle.state(),
        server_res == handle_res,
        server_after.state() == handle_after.state(),
        server_after.state() == State::Stopped,
{
}

/// A host's server reports and stops as the handle it holds does, and an
/// empty one as a stopped handle does: the host sees the same states and
/// the same errors as a caller of the handle.
pub proof fn a_host_server_stops_like_its_handle<F>(
    server: PyServer<F>,
    handle: ServerHandle<F>,
    server_after: PyServer<F>,
    server_res: Result<Completion, PyAppErr>,
    handle_after: ServerHandle<F>,
    handle_res: Result<Completion, AppError>,
)
    requires
        server.handle == Some(handle) || (server.handle is None && handle.state()
            == State::Stopped),
        PyServer::stop_step(server, server_after, server_res),
        ServerHandle::stop_step(handle, handle_after, handle_res),
    ensures
        server.state() == handle.state(),
        server_res == match handle_res {
            Ok(join) => Ok::<Completion, PyAppErr>(join),
            Err(err) => Err::<Completion, PyAppErr>(PyAppErr::AppError(err)),
        },
        server_after.state() == handle_after.state(),
{
}

} // verus!
