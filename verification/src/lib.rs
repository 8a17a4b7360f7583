//! Bridge between a long-lived, line-oriented JSON-RPC subprocess and any
//! number of network clients.
//!
//! The crate holds the decisions of the bridge; pipes, sockets, timers and
//! tasks belong to the program around it.
//!
//! * [`json`]: what the bridge reads of a payload, and the key that an
//!   identifier stands for.
//! * [`correlator`]: the requests that wait for a response.
//! * [`broadcaster`]: the numbered stream of output lines and the cursor of
//!   each subscriber.
//! * [`session`]: one subprocess's correlator and broadcaster, and the steps
//!   of a call.
//! * [`registry`]: who shares a session.
//! * [`process`]: how the subprocess is started and a line to it is framed.
//! * [`tailscale`], [`startup`]: what is said to the overlay-network tool
//!   and to the operator.
//! * [`error`]: what a call can fail with.
//! * [`laws`]: what holds of correlation and of streams in general.
//! * [`text`]: decimal numerals, prefixes, URLs.

pub mod broadcaster;
pub mod correlator;
pub mod error;
pub mod json;
pub mod laws;
pub mod process;
pub mod registry;
pub mod session;
pub mod startup;
pub mod tailscale;
pub mod text;
