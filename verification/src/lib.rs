//! Core logic of a reverse TCP tunnel: a relay inside a cluster and an agent
//! next to a local service cooperate over one long-lived control connection to
//! serve on-demand tunnels.
//!
//! Everything here is the protocol's decision logic, stated over plain values:
//! the bidirectional copy engine, the relay and agent state machines, the
//! deploy plan, and the command-line defaults. The surrounding processes feed
//! these functions the outcomes of their reads, accepts and timers and perform
//! the actions they return.

pub mod agent;
pub mod cli;
pub mod copy;
pub mod deploy;
pub mod relay;
