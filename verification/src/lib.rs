//! The state machine of a forward market trade.
//!
//! A contract instance escrows one trade. An admin sets the instance up, one
//! seller registers and locks a pool of assets, prospective buyers bid, the
//! seller accepts one bid, the bound buyer accepts the locked pool, and a
//! dealer settles the trade by moving custody of the pool. A dealer can also
//! return a stuck trade to its start, and the admin or a dealer can disable
//! the instance for good.
//!
//! The machine works on plain values. The persisted rows are a
//! [`Store`](storage::state_store::Store); what the asset registry answered
//! is a [`Registry`](registry::Registry); what a command asks of the registry
//! is a list of [`MarkerMsg`](registry::MarkerMsg) in its
//! [`Response`](response::Response). Every command is specified by a step:
//! a function from the store before it to the store after it and its answer.
//! A command that fails leaves the store as it found it.
//!
//! [`contract`] holds the entry points, [`execute`] one module for each
//! command, and [`laws`] what is proved of the machine as a whole.

pub mod contract;
pub mod error;
pub mod execute;
pub mod instantiate;
pub mod laws;
pub mod lookups;
pub mod migrate;
pub mod msg;
pub mod query;
pub mod registry;
pub mod response;
pub mod storage;
pub mod util;
pub mod version_info;
