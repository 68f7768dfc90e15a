//! Per-connection supervision for an echo server on a multiplexed transport.
//!
//! One connection carries three kinds of channel: bidirectional streams,
//! unidirectional streams and datagrams. Each kind is served by its own
//! worker, all three share one cancellation signal, and the first failure
//! ends the service of the whole connection.
//!
//! The crate holds the decisions; the caller performs the transport
//! operations and hands their outcomes back.

pub mod accept;
pub mod decimal;
pub mod error;
pub mod signal;
pub mod supervision;
pub mod supervisor;
pub mod task;
pub mod worker;
