//! A deterministic state-transition engine for a minimal ledger.
//!
//! A [`Runtime`] owns three independent stores: the system store (block number
//! and per-account nonces), the balances store and the claim registry. Blocks of
//! extrinsics are executed against them in order. Every public function carries a
//! contract over the mathematical view of the store it touches.

pub mod balances;
pub mod keyed_store;
pub mod proof_of_existence;
pub mod runtime;
pub mod support;
pub mod system;
pub mod types;
mod numeric;

pub use runtime::{Runtime, RuntimeCall};
