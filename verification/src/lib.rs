//! Ledger state-transition core for a content-addressable record store.
//!
//! Chains of immutable entries are paid for with a burnable credit currency
//! ("entry credits"), which is in turn purchased with a transferable token
//! currency ("factoids"). Every operation is a synchronous transition against
//! an explicit [`store::Store`]: it validates first, then either applies all
//! of its writes or none of them, and reports a typed error on failure.
//!
//! The surrounding node (consensus, networking, persistent storage, RPC and
//! process configuration) is a host runtime around this core; the plain-value
//! parts of its configuration live in [`config`], [`chain_spec`] and
//! [`service`].

pub mod chain_spec;
pub mod config;
pub mod entry;
pub mod entry_credit;
pub mod error;
pub mod factoid;
pub mod id;
pub mod service;
pub mod store;
