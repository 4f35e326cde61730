//! The runtime: one instance of each store, the routing of calls to them, and
//! the execution of blocks.

use vstd::prelude::*;
use crate::balances;
use crate::proof_of_existence;
use crate::support::{Dispatch, DispatchResult, ErrorKind};
use crate::system;
use crate::types::{AccountId, Balance, Block, BlockNumber, Content, Extrinsic, Nonce};

verus! {

/// Every call that the runtime can route, by the store that answers it.
#[derive(Debug)]
pub enum RuntimeCall {
    /// A call to the balances store.
    Balances(balances::Call),
    /// A call to the claim registry.
    ProofOfExistence(proof_of_existence::Call),
}

/// An extrinsic whose call was refused by its store. The block goes on after it.
#[derive(Clone, Copy, Debug, PartialEq, Eq, Structural)]
pub struct ExtrinsicFailure {
    /// The number of the block that held the extrinsic.
    pub block_number: BlockNumber,
    /// The position of the extrinsic in its block, counted from 0.
    pub extrinsic_index: usize,
    /// Why the store refused the call.
    pub error: ErrorKind,
}

/// How many of `extrinsics` are submitted by `who`.
pub open spec fn submissions(extrinsics: Seq<Extrinsic>, who: Seq<char>) -> nat
    decreases extrinsics.len(),
{
    if extrinsics.len() == 0 {
        0
    } else {
        submissions(extrinsics.drop_last(), who) + if extrinsics.last().caller@ == who {
            1nat
        } else {
            0nat
        }
    }
}

/// The runtime as a mathematical value: the views of its three stores.
pub struct RuntimeView {
    /// The system store.
    pub system: system::SystemView,
    /// The balances store.
    pub balances: balances::BalancesView,
    /// The claim registry.
    pub proof_of_existence: proof_of_existence::ClaimsView,
}

impl RuntimeView {
    /// The state of a runtime that has seen nothing.
    pub open spec fn new() -> Self {
        RuntimeView {
            system: system::SystemView::new(),
            balances: balances::BalancesView::new(),
            proof_of_existence: proof_of_existence::ClaimsView::new(),
        }
    }

    /// The outcome of routing `call` in the name of `caller`: that of the one
    /// store operation that the call names. The other stores stay as they are.
    pub open spec fn dispatch(self, caller: Seq<char>, call: RuntimeCall) -> Result<
        Self,
        ErrorKind,
    > {
        match call {
            RuntimeCall::Balances(call) => match self.balances.dispatch(caller, call) {
                Ok(balances) => Ok(RuntimeView { balances, ..self }),
                Err(error) => Err(error),
            },
            RuntimeCall::ProofOfExistence(call) => match self.proof_of_existence.dispatch(
                caller,
                call,
            ) {
                Ok(proof_of_existence) => Ok(RuntimeView { proof_of_existence, ..self }),
                Err(error) => Err(error),
            },
        }
    }

    /// The state after the nonce of `caller` went up by one.
    pub open spec fn count_extrinsic(self, caller: Seq<char>) -> Self {
        RuntimeView { system: self.system.inc_nonce(caller), ..self }
    }

    /// What the store answers to the call of `extrinsic`, once its caller's nonce
    /// has been counted.
    pub open spec fn extrinsic_result(self, extrinsic: Extrinsic) -> DispatchResult {
        match self.count_extrinsic(extrinsic.caller@).dispatch(
            extrinsic.caller@,
            extrinsic.call,
        ) {
            Ok(_) => Ok(()),
            Err(error) => Err(error),
        }
    }

    /// The state after `extrinsic`: its caller's nonce has gone up by one, and
    /// its call has taken effect unless the store refused it.
    pub open spec fn apply_extrinsic(self, extrinsic: Extrinsic) -> Self {
        let counted = self.count_extrinsic(extrinsic.caller@);
        match counted.dispatch(extrinsic.caller@, extrinsic.call) {
            Ok(after) => after,
            Err(_) => counted,
        }
    }

    /// The state after the extrinsics have been applied one after the other,
    /// first to last.
    pub open spec fn apply_extrinsics(self, extrinsics: Seq<Extrinsic>) -> Self
        decreases extrinsics.len(),
    {
        if extrinsics.len() == 0 {
            self
        } else {
            self.apply_extrinsics(extrinsics.drop_last()).apply_extrinsic(extrinsics.last())
        }
    }

    /// The refused extrinsics among `extrinsics`, in their order, each with its
    /// position and the store's reason.
    pub open spec fn failures(self, block_number: BlockNumber, extrinsics: Seq<Extrinsic>) -> Seq<
        ExtrinsicFailure,
    >
        decreases extrinsics.len(),
    {
        if extrinsics.len() == 0 {
            Seq::empty()
        } else {
            let earlier = self.failures(block_number, extrinsics.drop_last());
            match self.apply_extrinsics(extrinsics.drop_last()).extrinsic_result(
                extrinsics.last(),
            ) {
                Ok(_) => earlier,
                Err(error) => earlier.push(
                    ExtrinsicFailure {
                        block_number,
                        extrinsic_index: (extrinsics.len() - 1) as usize,
                        error,
                    },
                ),
            }
        }
    }

    /// No account's nonce would pass the largest nonce if each of `extrinsics`
    /// were counted for its caller.
    pub open spec fn nonces_fit(self, extrinsics: Seq<Extrinsic>) -> bool {
        forall|who: Seq<char>|
            self.system.nonce_of(who) + #[trigger] submissions(extrinsics, who) <= Nonce::MAX
    }

    /// The header of `block` carries the number that follows the current one.
    pub open spec fn header_fits(self, block: Block) -> bool {
        block.header.block_number == self.system.block_number + 1
    }

    /// The state after the block number went up by one.
    pub open spec fn start_block(self) -> Self {
        RuntimeView { system: self.system.inc_block_number(), ..self }
    }

    /// The counters have room for `block`: the block number is below the
    /// largest, and where the header fits, no nonce would pass the largest by
    /// the extrinsics of the block.
    pub open spec fn has_room_for(self, block: Block) -> bool {
        &&& self.system.block_number < BlockNumber::MAX
        &&& self.header_fits(block) ==> self.nonces_fit(block.extrinsics@)
    }

    /// The state after an attempt to execute `block`. The block number has gone
    /// up by one. The extrinsics have been applied if the header fits; nothing
    /// else has changed if it does not.
    pub open spec fn execute_block(self, block: Block) -> Self {
        if self.header_fits(block) {
            self.start_block().apply_extrinsics(block.extrinsics@)
        } else {
            self.start_block()
        }
    }
}

/// A prefix of a list of extrinsics holds no more submissions of an account than
/// the whole list.
pub proof fn lemma_submissions_of_prefix(extrinsics: Seq<Extrinsic>, n: int, who: Seq<char>)
    requires
        0 <= n <= extrinsics.len(),
    ensures
        submissions(extrinsics.take(n), who) <= submissions(extrinsics, who),
    decreases extrinsics.len(),
{
    if n == extrinsics.len() {
        assert(extrinsics.take(n) == extrinsics);
    } else {
        assert(extrinsics.drop_last().take(n) == extrinsics.take(n));
        lemma_submissions_of_prefix(extrinsics.drop_last(), n, who);
    }
}

/// An account with a submission among `extrinsics` is the caller of one of them.
pub proof fn lemma_submitter_is_a_caller(extrinsics: Seq<Extrinsic>, who: Seq<char>)
    requires
        submissions(extrinsics, who) > 0,
    ensures
        exists|i: int| 0 <= i < extrinsics.len() && (#[trigger] extrinsics[i]).caller@ == who,
    decreases extrinsics.len(),
{
    if extrinsics.last().caller@ == who {
        assert(extrinsics[extrinsics.len() - 1].caller@ == who);
    } else {
        lemma_submitter_is_a_caller(extrinsics.drop_last(), who);
        let i = choose|i: int|
            0 <= i < extrinsics.drop_last().len() && (#[trigger] extrinsics.drop_last()[i]).caller@
                == who;
        assert(extrinsics[i].caller@ == who);
    }
}

impl RuntimeView {
    /// Routing a call leaves the system store as it is.
    pub proof fn lemma_dispatch_keeps_system(self, caller: Seq<char>, call: RuntimeCall)
        ensures
            self.dispatch(caller, call) matches Ok(after) ==> after.system == self.system,
    {
    }

    /// Every extrinsic raises its caller's nonce by exactly one, whether its call
    /// is carried out or refused. It changes no other nonce and not the block
    /// number.
    pub proof fn lemma_extrinsic_counts_once(self, extrinsic: Extrinsic, who: Seq<char>)
        requires
            self.system.nonce_of(extrinsic.caller@) < Nonce::MAX,
        ensures
            self.apply_extrinsic(extrinsic).system.nonce_of(who) == self.system.nonce_of(who)
                + if who == extrinsic.caller@ {
                1nat
            } else {
                0nat
            },
            self.apply_extrinsic(extrinsic).system.block_number == self.system.block_number,
    {
        self.count_extrinsic(extrinsic.caller@).lemma_dispatch_keeps_system(
            extrinsic.caller@,
            extrinsic.call,
        );
    }

    /// Where the nonces have room for a list of extrinsics, they have room for
    /// each of its prefixes.
    pub proof fn lemma_prefix_fits(self, extrinsics: Seq<Extrinsic>, n: int)
        requires
            self.nonces_fit(extrinsics),
            0 <= n <= extrinsics.len(),
        ensures
            self.nonces_fit(extrinsics.take(n)),
    {
        assert forall|who: Seq<char>|
            self.system.nonce_of(who) + #[trigger] submissions(extrinsics.take(n), who)
                <= Nonce::MAX by {
            lemma_submissions_of_prefix(extrinsics, n, who);
            assert(self.system.nonce_of(who) + submissions(extrinsics, who) <= Nonce::MAX);
        }
    }

    /// After a list of extrinsics, the nonce of every account has gone up by the
    /// number of extrinsics that the account submitted, whatever became of their
    /// calls. The block number has not changed.
    pub proof fn lemma_extrinsics_count_once_each(self, extrinsics: Seq<Extrinsic>, who: Seq<char>)
        requires
            self.nonces_fit(extrinsics),
        ensures
            self.apply_extrinsics(extrinsics).system.nonce_of(who) == self.system.nonce_of(who)
                + submissions(extrinsics, who),
            self.apply_extrinsics(extrinsics).system.block_number == self.system.block_number,
        decreases extrinsics.len(),
    {
        if extrinsics.len() > 0 {
            let earlier = extrinsics.drop_last();
            let last = extrinsics.last();
            assert(earlier == extrinsics.take(extrinsics.len() - 1));
            self.lemma_prefix_fits(extrinsics, extrinsics.len() - 1);
            self.lemma_extrinsics_count_once_each(earlier, who);
            self.lemma_extrinsics_count_once_each(earlier, last.caller@);
            assert(self.system.nonce_of(last.caller@) + submissions(extrinsics, last.caller@)
                <= Nonce::MAX);
            self.apply_extrinsics(earlier).lemma_extrinsic_counts_once(last, who);
        }
    }

    /// No list of extrinsics changes the block number.
    pub proof fn lemma_extrinsics_keep_block_number(self, extrinsics: Seq<Extrinsic>)
        ensures
            self.apply_extrinsics(extrinsics).system.block_number == self.system.block_number,
        decreases extrinsics.len(),
    {
        if extrinsics.len() > 0 {
            let earlier = self.apply_extrinsics(extrinsics.drop_last());
            self.lemma_extrinsics_keep_block_number(extrinsics.drop_last());
            earlier.count_extrinsic(extrinsics.last().caller@).lemma_dispatch_keeps_system(
                extrinsics.last().caller@,
                extrinsics.last().call,
            );
        }
    }

    /// Every attempt to execute a block raises the block number by exactly one.
    /// A block whose header does not carry the new number changes nothing else:
    /// no nonce, no balance and no claim.
    pub proof fn lemma_block_number_goes_up_by_one(self, block: Block)
        ensures
            self.execute_block(block).system.block_number == self.system.block_number + 1,
            !self.header_fits(block) ==> {
                &&& self.execute_block(block).system.nonce == self.system.nonce
                &&& self.execute_block(block).balances == self.balances
                &&& self.execute_block(block).proof_of_existence == self.proof_of_existence
            },
    {
        self.start_block().lemma_extrinsics_keep_block_number(block.extrinsics@);
    }
}

/// The runtime.
#[derive(Debug)]
pub struct Runtime {
    system: system::Pallet,
    balances: balances::Pallet,
    proof_of_existence: proof_of_existence::Pallet,
}

impl View for Runtime {
    type V = RuntimeView;

    closed spec fn view(&self) -> RuntimeView {
        RuntimeView {
            system: self.system@,
            balances: self.balances@,
            proof_of_existence: self.proof_of_existence@,
        }
    }
}

/// Counts the extrinsics among `extrinsics` that `who` submits.
fn count_submissions(extrinsics: &Vec<Extrinsic>, who: &AccountId) -> (count: usize)
    ensures
        count == submissions(extrinsics@, who@),
{
    let mut count: usize = 0;
    let mut i: usize = 0;
    while i < extrinsics.len()
        invariant
            i <= extrinsics@.len(),
            count <= i,
            count == submissions(extrinsics@.take(i as int), who@),
        decreases extrinsics@.len() - i,
    {
        assert(extrinsics@.take(i + 1).drop_last() == extrinsics@.take(i as int));
        if extrinsics[i].caller == *who {
            count += 1;
        }
        i += 1;
    }
    assert(extrinsics@.take(i as int) == extrinsics@);
    count
}

impl Runtime {
    /// A runtime at block 0 whose stores are empty.
    pub fn new() -> (runtime: Self)
        ensures
            runtime@ == RuntimeView::new(),
    {
        Runtime {
            system: system::Pallet::new(),
            balances: balances::Pallet::new(),
            proof_of_existence: proof_of_existence::Pallet::new(),
        }
    }

    /// The number of the block that was executed last, 0 before the first.
    pub fn block_number(&self) -> (number: BlockNumber)
        ensures
            number == self@.system.block_number,
    {
        self.system.block_number()
    }

    /// The number of extrinsics that `who` has submitted.
    pub fn nonce(&self, who: &AccountId) -> (nonce: Nonce)
        ensures
            nonce == self@.system.nonce_of(who@),
    {
        self.system.nonce(who)
    }

    /// The balance of `who`.
    pub fn balance(&self, who: &AccountId) -> (balance: Balance)
        ensures
            balance == self@.balances.balance_of(who@),
    {
        self.balances.balance(who)
    }

    /// The owner of `claim`, if it is claimed.
    pub fn get_claim(&self, claim: &Content) -> (owner: Option<&AccountId>)
        ensures
            match owner {
                Some(account) => self@.proof_of_existence.get_claim(claim@) == Some(account@),
                None => self@.proof_of_existence.get_claim(claim@).is_none(),
            },
    {
        self.proof_of_existence.get_claim(claim)
    }

    /// Overwrites the balance of `who` with `amount`, and leaves everything else
    /// as it is. Meant for setting a ledger up.
    pub fn set_balance(&mut self, who: &AccountId, amount: Balance)
        ensures
            final(self)@ == (RuntimeView {
                balances: old(self)@.balances.set_balance(who@, amount),
                ..old(self)@
            }),
    {
        self.balances.set_balance(who, amount);
    }

    /// Whether the counters have room for `block`, which [`Runtime::execute_block`]
    /// asks for: the block number is below the largest, and where the header
    /// fits, no nonce would pass the largest by the extrinsics of the block.
    pub fn has_room_for(&self, block: &Block) -> (fits: bool)
        ensures
            fits == self@.has_room_for(*block),
    {
        let current = self.system.block_number();
        if current == BlockNumber::MAX {
            return false;
        }
        if block.header.block_number != current + 1 {
            return true;
        }
        let ghost extrinsics = block.extrinsics@;
        let mut i: usize = 0;
        while i < block.extrinsics.len()
            invariant
                self@.system.block_number < BlockNumber::MAX,
                self@.header_fits(*block),
                extrinsics == block.extrinsics@,
                i <= extrinsics.len(),
                forall|k: int|
                    0 <= k < i ==> self@.system.nonce_of(extrinsics[k].caller@) + submissions(
                        extrinsics,
                        #[trigger] extrinsics[k].caller@,
                    ) <= Nonce::MAX,
            decreases extrinsics.len() - i,
        {
            let caller = &block.extrinsics[i].caller;
            let submitted = count_submissions(&block.extrinsics, caller);
            let room = Nonce::MAX - self.system.nonce(caller);
            if submitted > room as usize {
                assert(self@.system.nonce_of(caller@) + submissions(extrinsics, caller@)
                    > Nonce::MAX);
                return false;
            }
            i += 1;
        }
        assert forall|who: Seq<char>|
            self@.system.nonce_of(who) + #[trigger] submissions(extrinsics, who)
                <= Nonce::MAX by {
            if submissions(extrinsics, who) > 0 {
                lemma_submitter_is_a_caller(extrinsics, who);
                let k = choose|k: int|
                    0 <= k < extrinsics.len() && (#[trigger] extrinsics[k]).caller@ == who;
                assert(extrinsics[k].caller@ == who);
            }
        }
        true
    }

    /// Executes `block` and reports the extrinsics that were refused.
    ///
    /// The block number goes up by one first. If the header does not carry the
    /// new number, the call fails with `InvalidBlockNumber` and no extrinsic is
    /// looked at. Otherwise each extrinsic in turn has its caller's nonce counted
    /// and its call routed; a call that its store refuses changes nothing and
    /// is listed in the result.
    pub fn execute_block_reporting(&mut self, block: Block) -> (result: Result<
        Vec<ExtrinsicFailure>,
        ErrorKind,
    >)
        requires
            old(self)@.has_room_for(block),
        ensures
            final(self)@ == old(self)@.execute_block(block),
            final(self)@.system.block_number == old(self)@.system.block_number + 1,
            old(self)@.header_fits(block) ==> forall|who: Seq<char>|
                final(self)@.system.nonce_of(who) == old(self)@.system.nonce_of(who)
                    + #[trigger] submissions(block.extrinsics@, who),
            match result {
                Ok(failures) => old(self)@.header_fits(block) && failures@ == old(
                    self,
                )@.start_block().failures(block.header.block_number, block.extrinsics@),
                Err(error) => !old(self)@.header_fits(block) && error
                    == ErrorKind::InvalidBlockNumber,
            },
    {
        self.system.inc_block_number();
        if block.header.block_number != self.system.block_number() {
            return Err(ErrorKind::InvalidBlockNumber);
        }
        let block_number = block.header.block_number;
        let ghost started = self@;
        let ghost extrinsics = block.extrinsics@;
        let count = block.extrinsics.len();
        let mut failures: Vec<ExtrinsicFailure> = Vec::new();
        let mut i: usize = 0;
        for extrinsic in it: block.extrinsics.into_iter()
            invariant
                it.seq() == extrinsics,
                i == it.index(),
                extrinsics.len() == count,
                started.nonces_fit(extrinsics),
                self@ == started.apply_extrinsics(extrinsics.take(i as int)),
                failures@ == started.failures(block_number, extrinsics.take(i as int)),
        {
            assert(i < count);
            assert(extrinsics.take(i + 1).drop_last() == extrinsics.take(i as int));
            assert(extrinsics.take(i + 1).last() == extrinsic);
            proof {
                started.lemma_prefix_fits(extrinsics, i as int);
                started.lemma_extrinsics_count_once_each(
                    extrinsics.take(i as int),
                    extrinsic.caller@,
                );
                lemma_submissions_of_prefix(extrinsics, i + 1, extrinsic.caller@);
            }
            let Extrinsic { caller, call } = extrinsic;
            self.system.inc_nonce(&caller);
            match self.dispatch(caller, call) {
                Ok(()) => {},
                Err(error) => {
                    failures.push(ExtrinsicFailure { block_number, extrinsic_index: i, error });
                },
            }
            i = i + 1;
        }
        assert(extrinsics.take(i as int) == extrinsics);
        proof {
            old(self)@.lemma_block_number_goes_up_by_one(block);
            assert forall|who: Seq<char>|
                self@.system.nonce_of(who) == old(self)@.system.nonce_of(who)
                    + #[trigger] submissions(extrinsics, who) by {
                started.lemma_extrinsics_count_once_each(extrinsics, who);
            }
        }
        Ok(failures)
    }

    /// Executes `block`.
    ///
    /// The block number goes up by one first. If the header does not carry the
    /// new number, the call fails with `InvalidBlockNumber` and no extrinsic is
    /// looked at. Otherwise each extrinsic in turn has its caller's nonce counted
    /// and its call routed; a call that its store refuses changes nothing, and
    /// the block goes on.
    pub fn execute_block(&mut self, block: Block) -> (result: DispatchResult)
        requires
            old(self)@.has_room_for(block),
        ensures
            final(self)@ == old(self)@.execute_block(block),
            final(self)@.system.block_number == old(self)@.system.block_number + 1,
            old(self)@.header_fits(block) ==> forall|who: Seq<char>|
                final(self)@.system.nonce_of(who) == old(self)@.system.nonce_of(who)
                    + #[trigger] submissions(block.extrinsics@, who),
            result == if old(self)@.header_fits(block) {
                Ok::<(), ErrorKind>(())
            } else {
                Err::<(), ErrorKind>(ErrorKind::InvalidBlockNumber)
            },
    {
        match self.execute_block_reporting(block) {
            Ok(_) => Ok(()),
            Err(error) => Err(error),
        }
    }
}

impl Dispatch for Runtime {
    type Caller = AccountId;

    type Call = RuntimeCall;

    /// Routes `call` to the store that answers it, and does nothing else.
    fn dispatch(&mut self, caller: AccountId, call: RuntimeCall) -> (result: DispatchResult)
        ensures
            match old(self)@.dispatch(caller@, call) {
                Ok(after) => result.is_ok() && final(self)@ == after,
                Err(error) => result == Err::<(), ErrorKind>(error) && final(self)@ == old(self)@,
            },
    {
        match call {
            RuntimeCall::Balances(call) => self.balances.dispatch(caller, call),
            RuntimeCall::ProofOfExistence(call) => self.proof_of_existence.dispatch(caller, call),
        }
    }
}

} // verus!
