//! A two-tier resource accounting ledger: a shared pool ("battery") with a
//! fixed capacity, and per-user accounts that reserve allocation rights from
//! the pool and hold an energy balance backed by an external token ledger.
//!
//! The pool's `available` field is the single spare-capacity budget consumed
//! by both allocations and deposits; every operation is an atomic transition
//! on one pool/user pair that either commits fully or leaves both records
//! unchanged.

pub mod laws;
pub mod ops;
pub mod state;

pub use ops::{allocate, deallocate, deposit_energy, initialize, withdraw_energy};
pub use state::{Battery, ErrorCode, UserAccount};
