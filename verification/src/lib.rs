//! A minimal custodial balance-tracking ledger.
//!
//! A single owner deposits ("stakes") a fungible unit of value into a shared
//! custody pool and later withdraws ("unstakes") the whole recorded balance.
//! The crate covers the balance-accounting state machine alone: how an
//! owner's recorded balance, the owner's external holding and the shared
//! custody pool change together, and the authorization and sufficiency
//! checks that guard every transition. Storage of the records, signature
//! verification and transaction plumbing belong to the host that calls in.

pub mod laws;
pub mod ledger;
