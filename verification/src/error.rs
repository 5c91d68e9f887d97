//! The errors of the lifecycle controller and their wording.

use tokio::task::JoinError;
use vstd::prelude::*;
use vstd::std_specs::convert::FromSpecImpl;
use vstd::string::to_string_from_display_ensures;

verus! {

/// What can go wrong while building, starting or stopping a service.
#[derive(Debug)]
pub enum AppError {
    /// The socket could not be bound, or the listener failed while serving.
    IoError(std::io::Error),
    /// The background task ended abnormally: it panicked or was cancelled.
    JoinError(JoinError),
    /// `stop` was asked of a service that is not running.
    ServerNotRunning,
    /// `start` was asked of a service that was already started.
    ServerRunning,
}

impl AppError {
    /// Whether `text` is how this error reads. For the two state errors the
    /// wording is fixed; for a wrapped cause it is a fixed prefix followed by
    /// the cause's own `Display` text.
    pub open spec fn is_message(&self, text: Seq<char>) -> bool {
        match self {
            AppError::IoError(e) => exists|cause: String|
                #[trigger] to_string_from_display_ensures::<std::io::Error>(e, cause) && text
                    == "IO error: "@ + cause@,
            AppError::JoinError(e) => exists|cause: String|
                #[trigger] to_string_from_display_ensures::<JoinError>(e, cause) && text
                    == "Join error: "@ + cause@,
            AppError::ServerNotRunning => text == "Server is not running"@,
            AppError::ServerRunning => text == "Server is already running"@,
        }
    }

    /// The error as text.
    pub fn to_string(&self) -> (text: String)
        ensures
            self.is_message(text@),
    {
        match self {
            AppError::IoError(e) => {
                let cause = e.to_string();
                "IO error: ".to_owned().concat(cause.as_str())
            },
            AppError::JoinError(e) => {
                let cause = e.to_string();
                "Join error: ".to_owned().concat(cause.as_str())
            },
            AppError::ServerNotRunning => "Server is not running".to_owned(),
            AppError::ServerRunning => "Server is already running".to_owned(),
        }
    }
}

impl From<std::io::Error> for AppError {
    fn from(cause: std::io::Error) -> (err: AppError) {
        AppError::IoError(cause)
    }
}

impl FromSpecImpl<std::io::Error> for AppError {
    open spec fn obeys_from_spec() -> bool {
        true
    }

    open spec fn from_spec(cause: std::io::Error) -> AppError {
        AppError::IoError(cause)
    }
}

impl From<JoinError> for AppError {
    fn from(cause: JoinError) -> (err: AppError) {
        AppError::JoinError(cause)
    }
}

impl FromSpecImpl<JoinError> for AppError {
    open spec fn obeys_from_spec() -> bool {
        true
    }

    open spec fn from_spec(cause: JoinError) -> AppError {
        AppError::JoinError(cause)
    }
}

/// The result of a stop, given what the task's completion reference
/// resolved to: success when the task ended normally, the listener's I/O
/// failure when it ended with one, and the join failure when the task
/// panicked or was cancelled.
pub open spec fn stop_outcome(
    joined: Result<Result<(), std::io::Error>, JoinError>,
) -> Result<(), AppError> {
    match joined {
        Ok(Ok(())) => Ok(()),
        Ok(Err(cause)) => Err(AppError::IoError(cause)),
        Err(cause) => Err(AppError::JoinError(cause)),
    }
}

/// Completes a stop: maps what awaiting the completion reference gave to
/// the result that the caller of the stop sees.
pub fn finish_stop(joined: Result<Result<(), std::io::Error>, JoinError>) -> (res: Result<
    (),
    AppError,
>)
    ensures
        res == stop_outcome(joined),
{
    match joined {
        Ok(Ok(())) => Ok(()),
        Ok(Err(cause)) => Err(AppError::IoError(cause)),
        Err(cause) => Err(AppError::JoinError(cause)),
    }
}

} // verus!
