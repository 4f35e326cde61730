//! The claim registry: which account owns which content.
//!
//! A content is either unclaimed or owned by exactly one account. It becomes
//! owned by a claim on unclaimed content and unclaimed again by its owner's
//! revocation; nothing else changes an owner.

use vstd::prelude::*;
use crate::keyed_store::KeyedStore;
use crate::support::{Dispatch, DispatchResult, ErrorKind};
use crate::types::{AccountId, Content};

verus! {

/// The claim registry as a mathematical value.
pub struct ClaimsView {
    /// The owner of each claimed content.
    pub claims: Map<Seq<char>, Seq<char>>,
}

impl ClaimsView {
    /// The state of a registry without claims.
    pub open spec fn new() -> Self {
        ClaimsView { claims: Map::empty() }
    }

    /// The owner of `content`, if it is claimed.
    pub open spec fn get_claim(self, content: Seq<char>) -> Option<Seq<char>> {
        if self.claims.contains_key(content) {
            Some(self.claims[content])
        } else {
            None
        }
    }

    /// The outcome of a claim by `caller` on `content`.
    pub open spec fn create_claim(self, caller: Seq<char>, content: Seq<char>) -> Result<
        Self,
        ErrorKind,
    > {
        if self.claims.contains_key(content) {
            Err(ErrorKind::ClaimAlreadyExists)
        } else {
            Ok(ClaimsView { claims: self.claims.insert(content, caller) })
        }
    }

    /// The outcome of `caller` revoking the claim on `content`.
    pub open spec fn revoke_claim(self, caller: Seq<char>, content: Seq<char>) -> Result<
        Self,
        ErrorKind,
    > {
        if !self.claims.contains_key(content) {
            Err(ErrorKind::ClaimNotFound)
        } else if self.claims[content] != caller {
            Err(ErrorKind::NotClaimOwner)
        } else {
            Ok(ClaimsView { claims: self.claims.remove(content) })
        }
    }

    /// The outcome of routing `call` in the name of `caller`.
    pub open spec fn dispatch(self, caller: Seq<char>, call: Call) -> Result<Self, ErrorKind> {
        match call {
            Call::CreateClaim { content } => self.create_claim(caller, content@),
            Call::RevokeClaim { content } => self.revoke_claim(caller, content@),
        }
    }
}

impl ClaimsView {
    /// A claim is made once. After a claim by `first` that was accepted, a claim
    /// on the same content by anybody is refused with `ClaimAlreadyExists`, and
    /// `first` is still the owner.
    pub proof fn lemma_claim_is_made_once(
        self,
        first: Seq<char>,
        second: Seq<char>,
        content: Seq<char>,
    )
        requires
            self.create_claim(first, content) is Ok,
        ensures
            self.create_claim(first, content)->Ok_0.create_claim(second, content) == Err::<
                Self,
                ErrorKind,
            >(ErrorKind::ClaimAlreadyExists),
            self.create_claim(first, content)->Ok_0.get_claim(content) == Some(first),
    {
    }

    /// A claim is refused exactly where the content has an owner.
    pub proof fn lemma_create_claim_outcomes(self, caller: Seq<char>, content: Seq<char>)
        ensures
            self.get_claim(content) is None <==> self.create_claim(caller, content) is Ok,
            self.get_claim(content) is Some <==> self.create_claim(caller, content) == Err::<
                Self,
                ErrorKind,
            >(ErrorKind::ClaimAlreadyExists),
    {
    }

    /// A revocation is accepted for the owner and for nobody else. Anybody else
    /// is refused with `NotClaimOwner`, and a revocation of content without an
    /// owner with `ClaimNotFound`.
    pub proof fn lemma_revoke_claim_outcomes(self, caller: Seq<char>, content: Seq<char>)
        ensures
            self.revoke_claim(caller, content) is Ok <==> self.get_claim(content) == Some(caller),
            self.revoke_claim(caller, content) == Err::<Self, ErrorKind>(ErrorKind::NotClaimOwner)
                <==> (self.get_claim(content) is Some && self.get_claim(content) != Some(caller)),
            self.revoke_claim(caller, content) == Err::<Self, ErrorKind>(ErrorKind::ClaimNotFound)
                <==> self.get_claim(content) is None,
    {
    }

    /// Content that was never claimed cannot be revoked: in a new registry every
    /// revocation is refused with `ClaimNotFound`.
    pub proof fn lemma_revoke_unclaimed(caller: Seq<char>, content: Seq<char>)
        ensures
            Self::new().revoke_claim(caller, content) == Err::<Self, ErrorKind>(
                ErrorKind::ClaimNotFound,
            ),
    {
    }

    /// After a revocation that was accepted the content has no owner, and a
    /// further revocation by anybody is refused with `ClaimNotFound`.
    pub proof fn lemma_revoke_is_final(self, owner: Seq<char>, again: Seq<char>, content: Seq<char>)
        requires
            self.revoke_claim(owner, content) is Ok,
        ensures
            self.revoke_claim(owner, content)->Ok_0.get_claim(content) is None,
            self.revoke_claim(owner, content)->Ok_0.revoke_claim(again, content) == Err::<
                Self,
                ErrorKind,
            >(ErrorKind::ClaimNotFound),
    {
    }

    /// Neither a claim nor a revocation touches the owner of other content.
    pub proof fn lemma_other_content_untouched(
        self,
        caller: Seq<char>,
        content: Seq<char>,
        other: Seq<char>,
    )
        requires
            other != content,
        ensures
            self.create_claim(caller, content) matches Ok(after) ==> after.get_claim(other)
                == self.get_claim(other),
            self.revoke_claim(caller, content) matches Ok(after) ==> after.get_claim(other)
                == self.get_claim(other),
    {
    }
}

/// The calls that the claim registry answers.
#[derive(Debug)]
pub enum Call {
    /// Claim `content` for the caller.
    CreateClaim {
        /// What is claimed.
        content: Content,
    },
    /// Give up the caller's claim on `content`.
    RevokeClaim {
        /// What is given up.
        content: Content,
    },
}

/// The claim registry.
#[derive(Debug)]
pub struct Pallet {
    claims: KeyedStore<AccountId>,
}

impl View for Pallet {
    type V = ClaimsView;

    closed spec fn view(&self) -> ClaimsView {
        ClaimsView {
            claims: Map::new(
                |content: Seq<char>| self.claims@.contains_key(content),
                |content: Seq<char>| self.claims@[content]@,
            ),
        }
    }
}

impl Pallet {
    /// A registry without claims.
    pub fn new() -> (pallet: Self)
        ensures
            pallet@ == ClaimsView::new(),
    {
        let pallet = Pallet { claims: KeyedStore::new() };
        assert(pallet@.claims =~= Map::empty());
        pallet
    }

    /// The owner of `claim`, if it is claimed.
    pub fn get_claim(&self, claim: &Content) -> (owner: Option<&AccountId>)
        ensures
            match owner {
                Some(account) => self@.get_claim(claim@) == Some(account@),
                None => self@.get_claim(claim@).is_none(),
            },
    {
        let key = (*claim).to_owned();
        self.claims.get(&key)
    }

    /// Records `caller` as the owner of `claim`.
    ///
    /// Fails with `ClaimAlreadyExists` where the content has an owner, who then
    /// stays the owner.
    pub fn create_claim(&mut self, caller: AccountId, claim: Content) -> (result: DispatchResult)
        ensures
            match old(self)@.create_claim(caller@, claim@) {
                Ok(after) => result.is_ok() && final(self)@ == after,
                Err(error) => result == Err::<(), ErrorKind>(error) && final(self)@ == old(self)@,
            },
    {
        let key = claim.to_owned();
        if self.claims.get(&key).is_some() {
            return Err(ErrorKind::ClaimAlreadyExists);
        }
        self.claims.insert(key, caller);
        assert(self@.claims =~= old(self)@.claims.insert(claim@, caller@));
        Ok(())
    }

    /// Takes the claim on `claim` away, for its owner.
    ///
    /// Fails with `ClaimNotFound` where the content has no owner, and with
    /// `NotClaimOwner` where its owner is not `caller`. A revocation that fails
    /// changes nothing.
    pub fn revoke_claim(&mut self, caller: AccountId, claim: Content) -> (result: DispatchResult)
        ensures
            match old(self)@.revoke_claim(caller@, claim@) {
                Ok(after) => result.is_ok() && final(self)@ == after,
                Err(error) => result == Err::<(), ErrorKind>(error) && final(self)@ == old(self)@,
            },
    {
        let key = claim.to_owned();
        match self.claims.get(&key) {
            None => {
                return Err(ErrorKind::ClaimNotFound);
            },
            Some(owner) => {
                if !(*owner == caller) {
                    return Err(ErrorKind::NotClaimOwner);
                }
            },
        }
        self.claims.remove(&key);
        assert(self@.claims =~= old(self)@.claims.remove(claim@));
        Ok(())
    }
}

impl Dispatch for Pallet {
    type Caller = AccountId;

    type Call = Call;

    /// Routes `call` to the operation that it names.
    fn dispatch(&mut self, caller: AccountId, call: Call) -> (result: DispatchResult)
        ensures
            match old(self)@.dispatch(caller@, call) {
                Ok(after) => result.is_ok() && final(self)@ == after,
                Err(error) => result == Err::<(), ErrorKind>(error) && final(self)@ == old(self)@,
            },
    {
        match call {
            Call::CreateClaim { content } => self.create_claim(caller, content),
            Call::RevokeClaim { content } => self.revoke_claim(caller, content),
        }
    }
}

} // verus!
