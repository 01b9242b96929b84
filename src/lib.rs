//! Keeps an address record of a DNS zone pointed at the host's public address.
//!
//! The library holds the decisions: which zone a domain belongs to, whether a
//! record is created or updated and with which request body, how provider
//! errors read, and how the network watcher subscribes and reacts. The caller
//! performs the requests and hands the answers back.
pub mod error;
pub mod pass;
pub mod record;
pub mod text;
pub mod watch;
pub mod zone;
