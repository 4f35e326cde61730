//! The system store: the current block number and one nonce per account.

use vstd::prelude::*;
use crate::keyed_store::KeyedStore;
use crate::numeric::{one_u32, zero_u32};
use crate::types::{AccountId, BlockNumber, Nonce};

verus! {

/// The system store as a mathematical value.
pub struct SystemView {
    /// The number of the block that was executed last, 0 before the first.
    pub block_number: nat,
    /// The nonces that have been written, by account.
    pub nonce: Map<Seq<char>, Nonce>,
}

impl SystemView {
    /// The state of a store that has seen nothing: block 0 and no nonce.
    pub open spec fn new() -> Self {
        SystemView { block_number: 0, nonce: Map::empty() }
    }

    /// The nonce of `who`: the one written for it, and 0 where none was.
    pub open spec fn nonce_of(self, who: Seq<char>) -> nat {
        if self.nonce.contains_key(who) {
            self.nonce[who] as nat
        } else {
            0
        }
    }

    /// The state after the block number went up by one.
    pub open spec fn inc_block_number(self) -> Self {
        SystemView { block_number: self.block_number + 1, ..self }
    }

    /// The state after the nonce of `who` went up by one.
    pub open spec fn inc_nonce(self, who: Seq<char>) -> Self {
        SystemView { nonce: self.nonce.insert(who, (self.nonce_of(who) + 1) as Nonce), ..self }
    }
}

/// The system store.
#[derive(Debug)]
pub struct Pallet {
    block_number: BlockNumber,
    nonce: KeyedStore<Nonce>,
}

impl View for Pallet {
    type V = SystemView;

    closed spec fn view(&self) -> SystemView {
        SystemView { block_number: self.block_number as nat, nonce: self.nonce@ }
    }
}

impl Pallet {
    /// A store at block 0 in which no account has a nonce.
    pub fn new() -> (pallet: Self)
        ensures
            pallet@ == SystemView::new(),
    {
        Pallet { block_number: zero_u32(), nonce: KeyedStore::new() }
    }

    /// The current block number.
    pub fn block_number(&self) -> (number: BlockNumber)
        ensures
            number == self@.block_number,
    {
        self.block_number
    }

    /// The nonce of `who`, 0 for an account that has submitted nothing.
    pub fn nonce(&self, who: &AccountId) -> (nonce: Nonce)
        ensures
            nonce == self@.nonce_of(who@),
    {
        match self.nonce.get(who) {
            Some(nonce) => *nonce,
            None => zero_u32(),
        }
    }

    /// The nonce written for `who`, `None` for an account that has submitted
    /// nothing.
    pub fn get_nonce(&self, who: &AccountId) -> (nonce: Option<Nonce>)
        ensures
            nonce == if self@.nonce.contains_key(who@) {
                Some(self@.nonce[who@])
            } else {
                None
            },
    {
        match self.nonce.get(who) {
            Some(nonce) => Some(*nonce),
            None => None,
        }
    }

    /// Adds one to the block number.
    ///
    /// The block number must be below the largest: the store does not say what
    /// an overflow would mean.
    pub fn inc_block_number(&mut self)
        requires
            old(self)@.block_number < BlockNumber::MAX,
        ensures
            final(self)@ == old(self)@.inc_block_number(),
    {
        self.block_number = self.block_number + one_u32();
    }

    /// Adds one to the nonce of `who`, counting from 0 for an account that has
    /// none yet.
    ///
    /// The nonce must be below the largest: the store does not say what an
    /// overflow would mean.
    pub fn inc_nonce(&mut self, who: &AccountId)
        requires
            old(self)@.nonce_of(who@) < Nonce::MAX,
        ensures
            final(self)@ == old(self)@.inc_nonce(who@),
    {
        let who_nonce = self.nonce(who);
        self.nonce.insert(who.clone(), who_nonce + one_u32());
    }
}

} // verus!
