//! One-way DNS reconciliation: given a desired record derived from service
//! discovery, decide the minimal provider operation (create, update, or none)
//! that makes the provider's record set reflect it.

pub mod errors;
pub mod reconcile;
pub mod records;
