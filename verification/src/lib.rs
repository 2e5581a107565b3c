//! Read-only, point-in-time snapshots of a cache's policy and maintenance
//! state, and the ledger of maintenance work that they are taken from.
//!
//! - [`snapshot`] holds the snapshot itself and the values in it.
//! - [`policy`] holds the configuration that a snapshot reports.
//! - [`ledger`] holds the maintenance state that a snapshot is taken from, and
//!   the steps of a maintenance run.
//! - [`entries`] says what the ledger's operations mean on the entries of the
//!   cache.
//! - [`laws`] states what holds of every ledger and of every snapshot, and
//!   [`step_laws`] what each step does.

pub mod entries;
pub mod laws;
pub mod ledger;
pub mod policy;
pub mod snapshot;
pub mod step_laws;
