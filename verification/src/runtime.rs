//! The items of Tokio and of std that the library moves around and calls,
//! as Verus is told of them. Nothing in this file is proved: each
//! declaration is taken on trust from the item's source and documentation.

use std::future::Future;
use vstd::prelude::*;

verus! {

/// `tokio::sync::oneshot::Sender`, the sending half of a single-use channel.
/// Opaque: the library only holds it and moves it.
#[verifier::external_type_specification]
#[verifier::external_body]
#[verifier::reject_recursive_types(T)]
pub struct ExSender<T>(tokio::sync::oneshot::Sender<T>);

/// `tokio::sync::oneshot::error::RecvError`, what the receiving half
/// resolves to when its sender was dropped without sending. Opaque.
#[verifier::external_type_specification]
#[verifier::external_body]
pub struct ExRecvError(tokio::sync::oneshot::error::RecvError);

/// `tokio::task::JoinHandle`, the owner's reference to a spawned task's
/// completion. Opaque: the library only holds it and moves it.
#[verifier::external_type_specification]
#[verifier::external_body]
#[verifier::reject_recursive_types(T)]
pub struct ExJoinHandle<T>(tokio::task::JoinHandle<T>);

/// `tokio::task::JoinError`, the failure of a task that panicked or was
/// cancelled. Opaque.
#[verifier::external_type_specification]
#[verifier::external_body]
pub struct ExJoinError(tokio::task::JoinError);

/// `tokio::runtime::Handle`, a reference to a running scheduler. Opaque.
#[verifier::external_type_specification]
#[verifier::external_body]
pub struct ExHandle(tokio::runtime::Handle);

/// `std::io::Error`. Opaque: the library carries it as the cause of a failed
/// bind or of a listener that failed while serving.
#[verifier::external_type_specification]
#[verifier::external_body]
pub struct ExIoError(std::io::Error);

/// `std::task::Poll`, with its two variants `Ready` and `Pending` visible.
#[verifier::external_type_specification]
#[verifier::reject_recursive_types(T)]
pub struct ExPoll<T>(std::task::Poll<T>);

/// `tokio::sync::oneshot::Sender::send` consumes the sender, never waits and
/// never panics. Whether the value was delivered depends on whether the
/// receiver is still alive, so nothing is claimed of success; on failure the
/// value handed in comes back.
pub assume_specification<T>[ tokio::sync::oneshot::Sender::<T>::send ](
    sender: tokio::sync::oneshot::Sender<T>,
    t: T,
) -> (res: Result<(), T>)
    ensures
        res matches Err(back) ==> back == t,
;

/// `tokio::runtime::Handle::spawn` schedules the future on the runtime and
/// returns at once with the task's join handle. It may be called from any
/// thread, inside or outside the runtime. Which task the join handle stands
/// for is not expressible here, so nothing is claimed of the result.
pub assume_specification<F>[ tokio::runtime::Handle::spawn::<F> ](
    scheduler: &tokio::runtime::Handle,
    future: F,
) -> (join: tokio::task::JoinHandle<F::Output>)
    where
        F: Future + Send + 'static,
        F::Output: Send + 'static,
;

} // verus!
