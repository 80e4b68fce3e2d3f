//! Durable-execution core of a distributed service-invocation platform:
//! an append-only, totally-ordered log per partition, per-consumer read
//! streams that skip trim gaps, a binary/string codec for partition-scoped
//! resource identifiers, the command/acknowledgement/deduplication envelope,
//! and the deterministic partition state machine that turns committed
//! commands into actions.

pub mod actions;
pub mod base62;
pub mod be_bytes;
pub mod commands;
pub mod dedup;
pub mod identifiers;
pub mod invocation;
pub mod lambda;
pub mod log;
pub mod meta;
pub mod network;
pub mod radix;
pub mod read_stream;
pub mod state_machine;
pub mod state_mutation;
pub mod status;
