//! Verified core of a dynamic-DNS reconciler.
//!
//! Each cycle resolves the caller's current public IPv4/IPv6 addresses and
//! brings a configured set of provider-hosted DNS records in line with them.
//! This crate holds the decision logic of such a cycle: validating the
//! provider's response envelope, selecting the configured records, and
//! planning which records to update while skipping locked, missing and
//! already-current ones.  The surrounding process performs the HTTP calls and
//! feeds their outcomes in as plain values.
use vstd::prelude::*;

pub mod api;
pub mod config_loader;
pub mod fetch;
pub mod reconcile;

verus! {

} // verus!
