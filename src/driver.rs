//! The owner of the driver server process, and the errors a run can end with.
//!
//! A [`Driver`] holds the spawned process, if any, and tears it down when it is
//! dropped: on a normal return, on an error return, and while unwinding.
use vstd::prelude::*;
use crate::lifecycle::Failure;

verus! {

/// tokio's handle to a spawned child process, held opaquely by [`Driver`].
#[verifier::external_type_specification]
#[verifier::external_body]
pub struct ExChild(tokio::process::Child);

/// The operating system's error, carried by `ProcessStartError`.
#[verifier::external_type_specification]
#[verifier::external_body]
pub struct ExIoError(std::io::Error);

/// fantoccini's error for a failed WebDriver command, carried opaquely.
#[verifier::external_type_specification]
#[verifier::external_body]
pub struct ExCmdError(fantoccini::error::CmdError);

/// fantoccini's error for a session that could not be created, carried opaquely.
#[verifier::external_type_specification]
#[verifier::external_body]
pub struct ExNewSessionError(fantoccini::error::NewSessionError);

/// Relies on tokio::process::Child::start_kill: it sends the kill signal to a
/// child that has not been reaped yet and reports failure as an error value.
#[verifier::external_body]
fn request_kill(child: &mut tokio::process::Child) -> (r: Result<(), std::io::Error>)
    opens_invariants none
    no_unwind
{
    child.start_kill()
}

/// Relies on tokio::process::Child::try_wait: it reaps the child if it has
/// exited, without blocking, and reports failure as an error value. The exit
/// status is not needed here and is let go.
#[verifier::external_body]
fn reap(child: &mut tokio::process::Child) -> (r: Result<(), std::io::Error>)
    opens_invariants none
    no_unwind
{
    child.try_wait().map(|_exit_status| ())
}

/// Why a run ended in failure.
pub enum DriverError {
    /// The driver executable could not be spawned.
    ProcessStartError(std::io::Error),
    /// A WebDriver command of the session failed.
    WebDriverConnectionError(fantoccini::error::CmdError),
    /// The WebDriver session could not be created.
    WebDriverClientError(fantoccini::error::NewSessionError),
    /// The driver's port did not accept a connection before the deadline.
    WebDriverStartTimeout,
}

impl DriverError {
    /// The kind of failure, without the underlying error.
    pub open spec fn failure_of(&self) -> Failure {
        match self {
            DriverError::ProcessStartError(_) => Failure::ProcessStart,
            DriverError::WebDriverConnectionError(_) => Failure::Connection,
            DriverError::WebDriverClientError(_) => Failure::ClientBuild,
            DriverError::WebDriverStartTimeout => Failure::StartTimeout,
        }
    }

    /// The kind of failure, without the underlying error.
    pub fn failure(&self) -> (r: Failure)
        ensures
            r == self.failure_of(),
    {
        match self {
            DriverError::ProcessStartError(_) => Failure::ProcessStart,
            DriverError::WebDriverConnectionError(_) => Failure::Connection,
            DriverError::WebDriverClientError(_) => Failure::ClientBuild,
            DriverError::WebDriverStartTimeout => Failure::StartTimeout,
        }
    }
}

/// The supervised driver server process, or its absence when the browser kind
/// asks for none. At most one process is held, and it is owned exclusively.
pub struct Driver {
    process: Option<tokio::process::Child>,
}

impl Driver {
    /// Whether a live process is held.
    pub closed spec fn owns_process(&self) -> bool {
        self.process is Some
    }

    /// The process handle held, if any.
    pub closed spec fn held(&self) -> Option<tokio::process::Child> {
        self.process
    }

    /// A driver that supervises `process`.
    pub fn supervise(process: tokio::process::Child) -> (r: Driver)
        ensures
            r.owns_process(),
            r.held() == Some(process),
    {
        Driver { process: Some(process) }
    }

    /// A driver with no process: the endpoint is managed elsewhere.
    pub fn detached() -> (r: Driver)
        ensures
            !r.owns_process(),
    {
        Driver { process: None }
    }

    /// Takes the outcome of spawning the driver executable: a process becomes
    /// a supervised driver, a spawn error becomes `ProcessStartError`.
    pub fn from_spawn(spawned: Result<tokio::process::Child, std::io::Error>) -> (r: Result<
        Driver,
        DriverError,
    >)
        ensures
            spawned is Ok <==> r is Ok,
            spawned matches Ok(c) ==> r matches Ok(d) && d.owns_process() && d.held() == Some(c),
            spawned matches Err(x) ==> r matches Err(DriverError::ProcessStartError(y)) && y == x,
    {
        match spawned {
            Ok(child) => Ok(Driver::supervise(child)),
            Err(e) => Err(DriverError::ProcessStartError(e)),
        }
    }

    /// Whether a live process is held.
    pub fn has_process(&self) -> (r: bool)
        ensures
            r == self.owns_process(),
    {
        self.process.is_some()
    }

    /// Kills and reaps the held process, if any, and lets go of it. Both steps
    /// are best effort: their errors are swallowed, as teardown must not fail.
    /// Returns whether there was a process to tear down.
    ///
    /// The kill and the reap are the calls to `request_kill` and `reap` below:
    /// whether the operating system process has died is not something a
    /// contract here can observe, so only the release of the handle is stated.
    pub fn teardown(&mut self) -> (r: bool)
        ensures
            r == old(self).owns_process(),
            !final(self).owns_process(),
        opens_invariants none
        no_unwind
    {
        let had_process = match &mut self.process {
            Some(child) => {
                let _ = request_kill(child);
                let _ = reap(child);
                true
            },
            None => false,
        };
        self.process = None;
        had_process
    }
}

impl Drop for Driver {
    fn drop(&mut self)
        ensures
            !final(self).owns_process(),
        opens_invariants none
        no_unwind
    {
        let _ = self.teardown();
    }
}

} // verus!
