//! Keeps the DNS record of a host name pointed at the caller's external IPv4
//! address, through Route53 or Cloudflare, and reports each successful run to
//! a metrics push gateway.
//!
//! The library holds the decisions of a run as a state machine (`run`): what
//! to fetch, when to update and with what, when to stop and why. The program
//! around it performs the network calls and feeds their outcomes back.

pub mod address;
pub mod config;
pub mod metrics;
pub mod run;
pub mod update;
