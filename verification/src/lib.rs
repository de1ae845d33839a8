//! A cyclic resource-exchange economy: a steward places pairs of resources
//! into a shared depot, dragon riders carry them to an aggregating depot,
//! which decides which stronghold the pair is destined for; the stronghold
//! acknowledges, letting the steward begin the next round.
//!
//! The coordination core is modelled here with explicit state and
//! edge-triggered sticky signals, so that the hand-off protocol itself is
//! verified; blocking, threads and logging live with the caller.

pub mod depot;
pub mod dragondepot;
pub mod dragonrider;
pub mod exchange;
pub mod kind;
pub mod rng;
pub mod signal;
pub mod steward;
pub mod stronghold;
pub mod stronghold_supply;

pub use kind::ResourceKind;
pub use kind::ResourceUnit;
