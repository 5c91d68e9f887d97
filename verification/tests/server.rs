use bodhiproxy::{finish_stop, AppError, PyAppErr, PyServer, Server};
use std::future::Future;
use std::sync::atomic::{AtomicBool, Ordering};
use std::sync::Arc;
use tokio::runtime::Runtime;
use tokio::sync::oneshot;

type NoService = std::future::Ready<std::io::Result<()>>;

fn scheduler() -> Runtime {
    tokio::runtime::Builder::new_multi_thread()
        .worker_threads(2)
        .enable_all()
        .build()
        .unwrap()
}

/// A service that waits for its shutdown signal and notes that it got one.
fn watched_service(
    signalled: Arc<AtomicBool>,
) -> (
    impl Future<Output = std::io::Result<()>> + Send + 'static,
    oneshot::Sender<()>,
) {
    let (tx, rx) = oneshot::channel::<()>();
    let serve = async move {
        if rx.await.is_ok() {
            signalled.store(true, Ordering::SeqCst);
        }
        Ok(())
    };
    (serve, tx)
}

fn refused() -> std::io::Error {
    std::io::Error::new(std::io::ErrorKind::PermissionDenied, "permission denied")
}

#[test]
fn a_new_server_is_running() {
    let rt = scheduler();
    let flag = Arc::new(AtomicBool::new(false));
    let mut server = Server::new(4000, Ok(watched_service(flag.clone())), rt.handle()).unwrap();
    assert_eq!(server.port, 4000);
    assert_eq!(server.status(), "running");
    assert_eq!(server.status(), "running");
    let join = server.stop().unwrap();
    assert!(finish_stop(rt.block_on(join)).is_ok());
    assert!(flag.load(Ordering::SeqCst));
}

#[test]
fn a_server_is_not_made_from_a_failed_bind() {
    let rt = scheduler();
    let components: Result<(NoService, oneshot::Sender<()>), std::io::Error> = Err(refused());
    match Server::new(80, components, rt.handle()) {
        Err(AppError::IoError(e)) => {
            assert_eq!(e.kind(), std::io::ErrorKind::PermissionDenied)
        }
        _ => panic!("a bind failure must come back as IoError"),
    }
}

#[test]
fn a_server_stops_once() {
    let rt = scheduler();
    let flag = Arc::new(AtomicBool::new(false));
    let mut server = Server::new(4001, Ok(watched_service(flag)), rt.handle()).unwrap();
    let join = server.stop().unwrap();
    assert_eq!(server.status(), "stopped");
    assert!(server.task.is_none());
    assert!(matches!(server.stop(), Err(AppError::ServerNotRunning)));
    assert_eq!(server.status(), "stopped");
    assert_eq!(server.port, 4001);
    assert!(finish_stop(rt.block_on(join)).is_ok());
}

#[test]
fn disposing_of_a_running_server_shuts_its_task_down() {
    let rt = scheduler();
    let flag = Arc::new(AtomicBool::new(false));
    let mut server = Server::new(4002, Ok(watched_service(flag.clone())), rt.handle()).unwrap();
    let pending = server.dispose();
    assert_eq!(server.status(), "stopped");
    let join = pending.unwrap();
    assert!(finish_stop(rt.block_on(join)).is_ok());
    assert!(flag.load(Ordering::SeqCst));
}

#[test]
fn disposing_of_a_stopped_server_needs_nothing() {
    let rt = scheduler();
    let flag = Arc::new(AtomicBool::new(false));
    let mut server = Server::new(4003, Ok(watched_service(flag)), rt.handle()).unwrap();
    let join = server.stop().unwrap();
    rt.block_on(join).unwrap().unwrap();
    assert!(server.dispose().is_none());
    assert!(server.dispose().is_none());
    assert_eq!(server.status(), "stopped");
}

#[test]
fn a_host_server_is_running_from_the_start() {
    let rt = scheduler();
    let flag = Arc::new(AtomicBool::new(false));
    let components = Ok(watched_service(flag.clone()));
    let mut server = match PyServer::start_server(4004, components, rt.handle()) {
        Ok(server) => server,
        Err(_) => panic!("a bound service must start"),
    };
    assert_eq!(server.status(), "running");
    assert_eq!(server.handle.as_ref().unwrap().port, 4004);
    let join = match server.stop() {
        Ok(join) => join,
        Err(_) => panic!("a running server must stop"),
    };
    assert!(server.handle.is_none());
    assert_eq!(server.status(), "stopped");
    assert!(finish_stop(rt.block_on(join)).is_ok());
    assert!(flag.load(Ordering::SeqCst));
}

#[test]
fn a_host_server_is_not_made_from_a_failed_bind() {
    let rt = scheduler();
    let components: Result<(NoService, oneshot::Sender<()>), std::io::Error> = Err(refused());
    match PyServer::start_server(80, components, rt.handle()) {
        Err(PyAppErr::AppError(AppError::IoError(e))) => {
            assert_eq!(e.to_string(), "permission denied")
        }
        _ => panic!("a bind failure must come back as IoError"),
    }
}

#[test]
fn a_host_server_stops_once() {
    let rt = scheduler();
    let flag = Arc::new(AtomicBool::new(false));
    let components = Ok(watched_service(flag));
    let mut server = match PyServer::start_server(4005, components, rt.handle()) {
        Ok(server) => server,
        Err(_) => panic!("a bound service must start"),
    };
    let join = match server.stop() {
        Ok(join) => join,
        Err(_) => panic!("a running server must stop"),
    };
    rt.block_on(join).unwrap().unwrap();
    match server.stop() {
        Err(err) => {
            assert!(matches!(err, PyAppErr::AppError(AppError::ServerNotRunning)));
            assert_eq!(err.host_error().message, "Server is not running");
        }
        Ok(_) => panic!("a second stop must be refused"),
    }
    assert_eq!(server.status(), "stopped");
}

#[test]
fn an_empty_host_server_reports_stopped() {
    let mut server: PyServer<NoService> = PyServer { handle: None };
    assert_eq!(server.status(), "stopped");
    assert!(matches!(
        server.stop(),
        Err(PyAppErr::AppError(AppError::ServerNotRunning))
    ));
    assert_eq!(server.status(), "stopped");
}

#[test]
fn a_host_server_keeps_a_handle_that_refused_to_stop() {
    let (tx, _rx) = oneshot::channel::<()>();
    let serve: NoService = std::future::ready(Ok(()));
    let handle = bodhiproxy::build_server_handle(4006, Ok((serve, tx))).unwrap();
    let mut server = PyServer { handle: Some(handle) };
    assert_eq!(server.status(), "built");
    assert!(matches!(
        server.stop(),
        Err(PyAppErr::AppError(AppError::ServerNotRunning))
    ));
    assert_eq!(server.status(), "built");
}
