//! Adaptive dispatch and health tracking for a racing JSON-RPC proxy.
//!
//! The library decides which backends a request may be sent to, how long the
//! secondaries wait before they race the primary, how probe results move a
//! backend between available and unavailable, when a secondary counts as
//! lagging behind the primary's chain head, and how completed calls are turned
//! into statistics.
pub mod text;
pub mod rpc_methods;
pub mod health;
pub mod latency;
pub mod height;
pub mod dispatch;
pub mod stats;
pub mod tables;
pub mod clock;
pub mod probe;
pub mod tracker;
pub mod collector;
pub mod proxy;
