//! A verified provisioning harness for ephemeral local test networks.
//!
//! A [`factory::LocalFactory`] launches a [`swarm::LocalSwarm`]: one running
//! test network together with its bootstrap authorities. The swarm hands out
//! privilege-scoped views — an administrative handle holding the root and
//! treasury-compliance authorities, and a public handle holding a funding
//! [`coffer::Coffer`] — and tears the network down when the test is over.

pub mod authority;
pub mod chain;
pub mod coffer;
pub mod errors;
pub mod factory;
pub mod ledger;
pub mod provision;
pub mod swarm;
