//! Supervision daemon core: the managed-process bookkeeping, the framed IPC
//! protocol with its client retry policy and server dispatch, the heartbeat
//! liveness monitor and the bounded in-memory log store, together with the
//! small pure pieces of the companion application (update checks, delay test
//! summaries, request/response signals).
pub mod cli;
pub mod client;
pub mod delay;
pub mod heartbeat;
pub mod logbuf;
pub mod overrides;
pub mod protocol;
pub mod runtime_params;
pub mod server;
pub mod supervisor;
pub mod update;
pub mod version;
