//! Process bootstrap for long-running servers: a logger configuration and a
//! bridge that turns termination signals into shutdown notifications.
//!
//! The decisions of the bridge are a small state machine ([`bridge`]) over the
//! signals that [`signals`] classifies. [`logger`] builds and installs the log
//! dispatch and [`record`] renders a log line. [`context`] owns the
//! listener's lifecycle.
//!
//! The library never waits: the caller owns the signal stream, the channel
//! and the task, feeds the bridge one event at a time and performs the action
//! that it answers with.

pub mod signals;
pub mod bridge;
pub mod record;
pub mod logger;
pub mod context;
