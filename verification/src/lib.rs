//! Swap-orchestration core of a hashed-timelock bridge relayer.
//!
//! The library tracks in-flight atomic swaps between two chains, one
//! registry per relay direction, and decides which contract call to
//! dispatch next for every observed chain or progress event.  All
//! side effects (chain adapters, call dispatch, scheduling) live with
//! the caller; the library is a pure decision core with verified
//! contracts.

pub mod active_swap;
pub mod bridge_service;
pub mod events;
pub mod runner;
pub mod types;
