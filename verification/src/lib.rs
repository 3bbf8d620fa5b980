//! A non-blocking TCP echo connection core.
//!
//! The library holds the per-connection logic of an echo server: a byte
//! accumulator that drains whatever a socket has available right now into one
//! message buffer, and a connection state machine that decides, event by
//! event, whether to keep reading, to echo a buffer back, to yield until the
//! socket is readable again, or to tear the connection down. All socket I/O
//! is performed by the surrounding runtime, which feeds the outcomes of its
//! reads and writes to the state machine and carries out the actions the
//! machine hands back.

pub mod accumulator;
pub mod connection;
pub mod events;
pub mod laws;
