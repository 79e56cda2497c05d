//! Decision core of a bridge between a raw TCP byte stream and a WebSocket
//! connection.
//!
//! A bridge session brings up its two connections, relays data between them in
//! both directions until either side ends, and then closes both. This crate
//! holds every decision of such a session and performs none of its I/O: the
//! caller reads, writes, dials and shuts down, and reports what happened.
//!
//! - [`endpoint`]: how each side obtains its connection.
//! - [`establish`]: bringing up both sides, the WebSocket side first.
//! - [`pump_ws`], [`pump_tcp`]: the two pumps of the relay.
//! - [`signal`], [`session`]: the stop signals by which the pumps end together.
//! - [`teardown`]: closing both connections, once each.
//! - [`message`]: WebSocket messages as the relay sees them.
//! - [`logging`]: the log level chosen on the command line.

pub mod endpoint;
pub mod establish;
pub mod logging;
pub mod message;
pub mod pump_tcp;
pub mod pump_ws;
pub mod session;
pub mod signal;
pub mod teardown;
