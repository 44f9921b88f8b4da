//! Decision logic of a two-legged WebSocket relay.
//!
//! A session pairs one client connection with one upstream connection. The
//! library decides, for every event the transport reports, what the transport
//! must do next; the transport itself (sockets, tasks, timers) lives with the
//! caller.
pub mod frame;
pub mod session;
pub mod trace;
pub mod upstream;
