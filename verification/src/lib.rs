//! A minimal multi-node remote-procedure-call topology: a keyed in-memory
//! store behind a CRUD protocol, a synchronous-call bridge that serializes
//! one request at a time toward an asynchronous worker, a cancellable server
//! host with a monotonic shutdown signal, and a forwarding chain node that
//! greets its caller while fanning a call out downstream.

pub mod point;
pub mod bridge;
pub mod chain;
pub mod host;
pub mod protocol;
pub mod store;
