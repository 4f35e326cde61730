//! What the stores and the runtime share: the error taxonomy, the shape of a
//! block and the routing of calls.

use vstd::prelude::*;

verus! {

/// Why an operation was refused.
#[derive(Clone, Copy, Debug, PartialEq, Eq, Structural)]
pub enum ErrorKind {
    /// The header of a block does not carry the number that follows the current one.
    InvalidBlockNumber,
    /// A transfer asks for more than its sender holds.
    InsufficientFunds,
    /// A transfer would lift the receiver's balance above the largest balance.
    BalanceOverflow,
    /// The content already has an owner.
    ClaimAlreadyExists,
    /// The content has no owner.
    ClaimNotFound,
    /// The content is owned by somebody other than the caller.
    NotClaimOwner,
}

/// The result of an operation that changes a store.
pub type DispatchResult = Result<(), ErrorKind>;

impl ErrorKind {
    /// The text of [`ErrorKind::message`].
    pub open spec fn spec_message(self) -> &'static str {
        match self {
            ErrorKind::InvalidBlockNumber => "block number does not match what is expected",
            ErrorKind::InsufficientFunds => "Not enough funds.",
            ErrorKind::BalanceOverflow => "Not enough funds.",
            ErrorKind::ClaimAlreadyExists => "Claim already exists",
            ErrorKind::ClaimNotFound => "claim does not exist",
            ErrorKind::NotClaimOwner => "caller is not the owner",
        }
    }

    /// A short description of the error for diagnostics. The two balance errors
    /// share one description.
    pub fn message(&self) -> (text: &'static str)
        ensures
            text == self.spec_message(),
    {
        match self {
            ErrorKind::InvalidBlockNumber => "block number does not match what is expected",
            ErrorKind::InsufficientFunds => "Not enough funds.",
            ErrorKind::BalanceOverflow => "Not enough funds.",
            ErrorKind::ClaimAlreadyExists => "Claim already exists",
            ErrorKind::ClaimNotFound => "claim does not exist",
            ErrorKind::NotClaimOwner => "caller is not the owner",
        }
    }
}

/// The header of a block.
#[derive(Debug)]
pub struct Header<BlockNumber> {
    /// The number that the block claims for itself.
    pub block_number: BlockNumber,
}

/// One instruction inside a block: who submits it, and what it asks for.
#[derive(Debug)]
pub struct Extrinsic<Caller, Call> {
    /// The account that submits the call.
    pub caller: Caller,
    /// The operation that is asked for, with its arguments.
    pub call: Call,
}

/// A header and the extrinsics that come with it, in the order of execution.
#[derive(Debug)]
pub struct Block<Header, Extrinsic> {
    /// The header.
    pub header: Header,
    /// The extrinsics, first to last.
    pub extrinsics: Vec<Extrinsic>,
}

/// A store, or a composition of stores, to which calls can be routed.
pub trait Dispatch {
    /// Who submits a call.
    type Caller;

    /// The calls that can be routed.
    type Call;

    /// Carries out `call` in the name of `caller` and hands back what the
    /// operation behind it returned.
    fn dispatch(&mut self, caller: Self::Caller, call: Self::Call) -> DispatchResult;
}

} // verus!
