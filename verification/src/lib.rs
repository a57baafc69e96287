//! Discovery crawler core for a relay-based publish/subscribe network.
//!
//! The crate keeps a deduplicated registry of relay endpoint addresses,
//! classifies received events for endpoint hints, renders the final report,
//! and drives the crawl state machine: seeding, subscribing, listening with
//! two stop heuristics (end-of-feed quorum and idle timeout), and draining.

pub mod events;
pub mod relays;
pub mod relay_manager;
pub mod report;
