//! A transport-agnostic JSON-RPC 2.0 client core.
//!
//! The crate holds the decisions of a client: how calls are framed and
//! numbered, how replies find their callers, how the engine moves through a
//! turn and shuts down, and how subscriptions are fanned out. Every function
//! carries a contract that Verus proves. Reading from and writing to a
//! transport is left to the program that drives these state machines.
//!
//! - [`json`], [`decimal`], [`params`], [`codec`]: values, numbers in text,
//!   parameters and frames.
//! - [`wire`]: the calls into the JSON serializer, which are believed, not
//!   proved.
//! - [`id_generator`], [`client`], [`handle`]: the engine and its callers.
//! - [`select_weak`]: merging the two queues that feed the engine.
//! - [`pubsub`], [`table`]: subscriptions.
//! - [`laws`]: what holds of all of this over every input.

pub mod client;
pub mod codec;
pub mod decimal;
pub mod error;
pub mod handle;
pub mod id_generator;
pub mod json;
pub mod laws;
pub mod params;
pub mod pubsub;
pub mod select_weak;
pub mod table;
pub mod wire;
