//! The types that every store of the runtime is built on.

use vstd::prelude::*;

verus! {

/// The name of a participant. It serves as a key and nothing else.
pub type AccountId = String;

/// An amount held by an account.
pub type Balance = u128;

/// The number of a block.
pub type BlockNumber = u32;

/// The count of extrinsics that an account has submitted.
pub type Nonce = u32;

/// What a claim is made on.
pub type Content = &'static str;

/// An extrinsic of this runtime.
pub type Extrinsic = crate::support::Extrinsic<AccountId, crate::runtime::RuntimeCall>;

/// A block header of this runtime.
pub type Header = crate::support::Header<BlockNumber>;

/// A block of this runtime.
pub type Block = crate::support::Block<Header, Extrinsic>;

} // verus!
