//! One externally launched resource and the wait for it to become reachable.
//!
//! A run starts a container through a launcher, polls an endpoint of it until
//! a connection can be made, and stops the container when the run is over. What
//! is decided along the way lives here, as functions on plain values; running
//! the launcher, attempting a connection and waiting are the caller's part.
//!
//! - [`launch`]: the command lines handed to the launcher, and its report.
//! - [`handle`]: the handle of a launched resource, which hands out its
//!   teardown exactly once.
//! - [`retry`]: the retry policy, the result of an attempt, the error of a run.
//! - [`connector`]: the polling run as a machine, one attempt at a time.
//! - [`polling`]: what a whole run comes to, and the run as one blocking call.
//! - [`text`]: trimming and decimal rendering.

pub mod connector;
pub mod handle;
pub mod launch;
pub mod polling;
pub mod retry;
pub mod text;
