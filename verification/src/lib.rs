//! Watches the highest bid of one product variant and decides when a new,
//! higher bid deserves an alert.
//!
//! The library holds the decisions; whoever uses it does the fetching, the
//! sending and the waiting.
//!
//! - [`snapshot`]: what the marketplace reported at one poll instant.
//! - [`detect`]: which bids of a snapshot are announced, and what is true of
//!   them.
//! - [`notify`] and [`decimal`]: the text of an alert.
//! - [`market`]: the address and the fixed headers of a request.
//! - [`client`]: the HTTP client behind the proxy.
//! - [`config`]: the settings that must be present at startup.
//! - [`poller`]: the poll loop as a state machine from events to actions.

pub mod client;
pub mod config;
pub mod decimal;
pub mod detect;
pub mod market;
pub mod notify;
pub mod poller;
pub mod snapshot;
