//! Decision core of a transparent TCP forwarding proxy.
//!
//! The proxy accepts inbound connections, admits them by an exact-match IPv4
//! allowlist, and relays admitted connections to one destination that is
//! fixed at startup. This crate holds every decision of that pipeline as
//! verified functions over plain values; the sockets themselves live with
//! the caller, which reports what it observed and carries out what these
//! functions return.

pub mod accept;
pub mod address;
pub mod allowlist;
pub mod config;
pub mod diagnostic;
pub mod filter;
pub mod proxy;
pub mod relay;
pub mod session;
