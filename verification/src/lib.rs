//! Task lifecycle and download orchestration for a chat-driven media fetcher.
//!
//! The library holds the decisions of the system: the task state machine, the
//! cancellation registry, the classification of a finished download, the
//! progress poller's edit rule and the delivery retry rule. Everything that
//! touches the network, the disk or a clock is left to the caller, which hands
//! plain values in and carries the returned actions out.

pub mod cancellation;
pub mod database;
pub mod delivery;
pub mod download;
pub mod engine;
pub mod folder;
pub mod ident;
pub mod lifecycle;
pub mod mediatype;
pub mod poller;
pub mod request;
pub mod state;
pub mod text;
pub mod trackedmessage;
pub mod traits;
