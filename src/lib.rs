//! Launching and supervising a local WebDriver server: the choice of driver
//! binary and its command line, loopback port negotiation, readiness polling,
//! the run's lifecycle state machine, and the owner of the driver process.

pub mod browser;
pub mod port;
pub mod readiness;
pub mod lifecycle;
pub mod driver;

pub use browser::{launch_command, port_argument, Browser, LaunchCommand, StreamMode};
pub use driver::{Driver, DriverError};
pub use lifecycle::{Action, Coordinator, Event, Failure, Outcome, RunState, Stage};
pub use port::{PortScan, ScanStep};
pub use readiness::{decide, step_budget, ProbeDecision, ProbeEvent, POLL_INTERVAL_MS};
