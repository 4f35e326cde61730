//! The balances store: how much each account holds, and transfers between
//! accounts that neither create nor destroy anything.

use vstd::prelude::*;
use crate::keyed_store::KeyedStore;
use crate::numeric::{checked_add_u128, checked_sub_u128, zero_u128};
use crate::support::{Dispatch, DispatchResult, ErrorKind};
use crate::types::{AccountId, Balance};

verus! {

/// The balances store as a mathematical value.
pub struct BalancesView {
    /// The balances that have been written, by account.
    pub balances: Map<Seq<char>, Balance>,
}

impl BalancesView {
    /// The state of a store in which nothing has been written.
    pub open spec fn new() -> Self {
        BalancesView { balances: Map::empty() }
    }

    /// The balance of `who`: the one written for it, and 0 where none was.
    pub open spec fn balance_of(self, who: Seq<char>) -> nat {
        if self.balances.contains_key(who) {
            self.balances[who] as nat
        } else {
            0
        }
    }

    /// The state after the balance of `who` was overwritten with `amount`.
    pub open spec fn set_balance(self, who: Seq<char>, amount: Balance) -> Self {
        BalancesView { balances: self.balances.insert(who, amount) }
    }

    /// The outcome of a transfer of `amount` from `caller` to `to`.
    ///
    /// The sender must hold the amount, and the receiver's balance as it stands
    /// before the transfer must have room for it. The amount then leaves the
    /// sender and reaches the receiver. Where the two are one account, that
    /// account holds afterwards what it held before.
    pub open spec fn transfer(self, caller: Seq<char>, to: Seq<char>, amount: Balance) -> Result<
        Self,
        ErrorKind,
    > {
        if amount > self.balance_of(caller) {
            Err(ErrorKind::InsufficientFunds)
        } else if self.balance_of(to) + amount > Balance::MAX {
            Err(ErrorKind::BalanceOverflow)
        } else {
            let debited = self.set_balance(caller, (self.balance_of(caller) - amount) as Balance);
            Ok(debited.set_balance(to, (debited.balance_of(to) + amount) as Balance))
        }
    }

    /// The outcome of routing `call` in the name of `caller`.
    pub open spec fn dispatch(self, caller: Seq<char>, call: Call) -> Result<Self, ErrorKind> {
        match call {
            Call::Transfer { to, amount } => self.transfer(caller, to@, amount),
        }
    }
}

/// A change that can be asked of the balances store, for speaking of what a
/// store has been through.
pub enum Operation {
    /// The balance of `who` is overwritten with `amount`.
    SetBalance {
        /// The account that is written.
        who: Seq<char>,
        /// Its new balance.
        amount: Balance,
    },
    /// `amount` is to move from `caller` to `to`.
    Transfer {
        /// The sender.
        caller: Seq<char>,
        /// The receiver.
        to: Seq<char>,
        /// How much to move.
        amount: Balance,
    },
}

impl Operation {
    /// The operation writes the balance of `who` directly or names `who` as the
    /// receiver of a transfer.
    pub open spec fn sets_or_credits(self, who: Seq<char>) -> bool {
        match self {
            Operation::SetBalance { who: written, .. } => written == who,
            Operation::Transfer { to, .. } => to == who,
        }
    }
}

impl BalancesView {
    /// The state after `operation`. A transfer that is refused leaves the state
    /// as it is.
    pub open spec fn apply(self, operation: Operation) -> Self {
        match operation {
            Operation::SetBalance { who, amount } => self.set_balance(who, amount),
            Operation::Transfer { caller, to, amount } => match self.transfer(caller, to, amount) {
                Ok(after) => after,
                Err(_) => self,
            },
        }
    }

    /// The state after the operations, first to last.
    pub open spec fn apply_all(self, operations: Seq<Operation>) -> Self
        decreases operations.len(),
    {
        if operations.len() == 0 {
            self
        } else {
            self.apply_all(operations.drop_last()).apply(operations.last())
        }
    }

    /// In a new store every account holds 0.
    pub proof fn lemma_new_holds_nothing(who: Seq<char>)
        ensures
            Self::new().balance_of(who) == 0,
    {
    }

    /// An account that holds 0 and is neither written nor named as a receiver
    /// by any of the operations holds 0 after them.
    pub proof fn lemma_untouched_account_holds_nothing(
        self,
        operations: Seq<Operation>,
        who: Seq<char>,
    )
        requires
            self.balance_of(who) == 0,
            forall|i: int| 0 <= i < operations.len() ==> !operations[i].sets_or_credits(who),
        ensures
            self.apply_all(operations).balance_of(who) == 0,
        decreases operations.len(),
    {
        if operations.len() > 0 {
            let earlier = operations.drop_last();
            assert forall|i: int| 0 <= i < earlier.len() implies !earlier[i].sets_or_credits(
                who,
            ) by {
                assert(earlier[i] == operations[i]);
            }
            self.lemma_untouched_account_holds_nothing(earlier, who);
            assert(!operations[operations.len() - 1].sets_or_credits(who));
        }
    }

    /// A transfer is refused with `InsufficientFunds` exactly where the sender
    /// holds less than the amount, whoever the receiver is.
    pub proof fn lemma_transfer_needs_funds(self, caller: Seq<char>, to: Seq<char>, amount: Balance)
        ensures
            amount > self.balance_of(caller) <==> self.transfer(caller, to, amount) == Err::<
                Self,
                ErrorKind,
            >(ErrorKind::InsufficientFunds),
    {
    }

    /// A transfer that is carried out leaves the sum of the two balances as it
    /// was, and every other balance too.
    pub proof fn lemma_transfer_conserves_sum(
        self,
        caller: Seq<char>,
        to: Seq<char>,
        amount: Balance,
        other: Seq<char>,
    )
        requires
            self.transfer(caller, to, amount) is Ok,
            other != caller,
            other != to,
        ensures
            self.transfer(caller, to, amount)->Ok_0.balance_of(caller) + self.transfer(
                caller,
                to,
                amount,
            )->Ok_0.balance_of(to) == self.balance_of(caller) + self.balance_of(to),
            self.transfer(caller, to, amount)->Ok_0.balance_of(other) == self.balance_of(other),
    {
    }

    /// A transfer between two accounts that is carried out lowers the sender's
    /// balance by the amount and raises the receiver's by the amount.
    pub proof fn lemma_transfer_moves_amount(
        self,
        caller: Seq<char>,
        to: Seq<char>,
        amount: Balance,
    )
        requires
            self.transfer(caller, to, amount) is Ok,
            caller != to,
        ensures
            self.transfer(caller, to, amount)->Ok_0.balance_of(caller) == self.balance_of(caller)
                - amount,
            self.transfer(caller, to, amount)->Ok_0.balance_of(to) == self.balance_of(to)
                + amount,
    {
    }

    /// A transfer from an account to itself that is carried out leaves its
    /// balance as it was.
    pub proof fn lemma_transfer_to_oneself(self, who: Seq<char>, amount: Balance)
        requires
            self.transfer(who, who, amount) is Ok,
        ensures
            self.transfer(who, who, amount)->Ok_0.balance_of(who) == self.balance_of(who),
    {
    }
}

impl BalancesView {
    /// The sum of the balances of `accounts`.
    pub open spec fn total_over(self, accounts: Set<Seq<char>>) -> nat {
        accounts.fold(0nat, |sum: nat, who: Seq<char>| sum + self.balance_of(who))
    }

    /// The sum over a set with one more account is larger by that account's
    /// balance.
    pub proof fn lemma_total_with_account(self, accounts: Set<Seq<char>>, who: Seq<char>)
        requires
            accounts.finite(),
            !accounts.contains(who),
        ensures
            self.total_over(accounts.insert(who)) == self.total_over(accounts) + self.balance_of(
                who,
            ),
    {
        let f = |sum: nat, who: Seq<char>| sum + self.balance_of(who);
        assert(vstd::set::fold::is_fun_commutative(f));
        vstd::set::fold::lemma_fold_insert(accounts, 0nat, f, who);
    }

    /// Two states that agree on the balance of each of `accounts` agree on the
    /// sum over them.
    pub proof fn lemma_total_of_equal_balances(self, other: Self, accounts: Set<Seq<char>>)
        requires
            accounts.finite(),
            forall|who: Seq<char>|
                accounts.contains(who) ==> self.balance_of(who) == other.balance_of(who),
        ensures
            self.total_over(accounts) == other.total_over(accounts),
        decreases accounts.len(),
    {
        if accounts.is_empty() {
            assert(accounts =~= Set::empty());
            vstd::set::fold::lemma_fold_empty(
                0nat,
                |sum: nat, who: Seq<char>| sum + self.balance_of(who),
            );
            vstd::set::fold::lemma_fold_empty(
                0nat,
                |sum: nat, who: Seq<char>| sum + other.balance_of(who),
            );
        } else {
            let one = accounts.choose();
            let rest = accounts.remove(one);
            assert(accounts =~= rest.insert(one));
            self.lemma_total_of_equal_balances(other, rest);
            self.lemma_total_with_account(rest, one);
            other.lemma_total_with_account(rest, one);
        }
    }

    /// A transfer that is carried out creates and destroys nothing: over any
    /// finite set of accounts that holds both the sender and the receiver, the
    /// sum of the balances is afterwards what it was before.
    pub proof fn lemma_transfer_conserves_total(
        self,
        caller: Seq<char>,
        to: Seq<char>,
        amount: Balance,
        accounts: Set<Seq<char>>,
    )
        requires
            self.transfer(caller, to, amount) is Ok,
            accounts.finite(),
            accounts.contains(caller),
            accounts.contains(to),
        ensures
            self.transfer(caller, to, amount)->Ok_0.total_over(accounts) == self.total_over(
                accounts,
            ),
    {
        let after = self.transfer(caller, to, amount)->Ok_0;
        if caller == to {
            self.lemma_total_of_equal_balances(after, accounts);
        } else {
            let others = accounts.remove(caller).remove(to);
            let with_caller = others.insert(caller);
            assert(accounts =~= with_caller.insert(to));
            self.lemma_total_of_equal_balances(after, others);
            self.lemma_total_with_account(others, caller);
            self.lemma_total_with_account(with_caller, to);
            after.lemma_total_with_account(others, caller);
            after.lemma_total_with_account(with_caller, to);
        }
    }
}

/// The calls that the balances store answers.
#[derive(Debug)]
pub enum Call {
    /// Move `amount` from the caller to `to`.
    Transfer {
        /// The receiver.
        to: AccountId,
        /// How much to move.
        amount: Balance,
    },
}

/// The balances store.
#[derive(Debug)]
pub struct Pallet {
    balances: KeyedStore<Balance>,
}

impl View for Pallet {
    type V = BalancesView;

    closed spec fn view(&self) -> BalancesView {
        BalancesView { balances: self.balances@ }
    }
}

impl Pallet {
    /// A store in which every account holds 0.
    pub fn new() -> (pallet: Self)
        ensures
            pallet@ == BalancesView::new(),
    {
        Pallet { balances: KeyedStore::new() }
    }

    /// Overwrites the balance of `who` with `amount`.
    ///
    /// Nothing is asked of the caller here: who may do this is for the
    /// surrounding system to decide.
    pub fn set_balance(&mut self, who: &AccountId, amount: Balance)
        ensures
            final(self)@ == old(self)@.set_balance(who@, amount),
    {
        self.balances.insert(who.clone(), amount);
    }

    /// The balance of `who`, 0 for an account that nothing was written for.
    pub fn balance(&self, who: &AccountId) -> (balance: Balance)
        ensures
            balance == self@.balance_of(who@),
    {
        match self.balances.get(who) {
            Some(balance) => *balance,
            None => zero_u128(),
        }
    }

    /// Moves `amount` from `caller` to `to`.
    ///
    /// Fails with `InsufficientFunds` where `caller` holds less than `amount`,
    /// and with `BalanceOverflow` where the balance of `to` has no room for it.
    /// A transfer that fails changes nothing.
    pub fn transfer(&mut self, caller: AccountId, to: AccountId, amount: Balance) -> (result:
        DispatchResult)
        ensures
            match old(self)@.transfer(caller@, to@, amount) {
                Ok(after) => result.is_ok() && final(self)@ == after,
                Err(error) => result == Err::<(), ErrorKind>(error) && final(self)@ == old(self)@,
            },
    {
        let caller_balance = self.balance(&caller);
        let to_balance = self.balance(&to);

        let new_caller_balance = match checked_sub_u128(caller_balance, amount) {
            Some(balance) => balance,
            None => {
                return Err(ErrorKind::InsufficientFunds);
            },
        };
        if checked_add_u128(to_balance, amount).is_none() {
            return Err(ErrorKind::BalanceOverflow);
        }
        self.set_balance(&caller, new_caller_balance);
        let credited = self.balance(&to) + amount;
        self.set_balance(&to, credited);

        Ok(())
    }
}

impl Dispatch for Pallet {
    type Caller = AccountId;

    type Call = Call;

    /// Routes `call` to the operation that it names.
    fn dispatch(&mut self, caller: AccountId, call: Call) -> (result: DispatchResult)
        ensures
            match old(self)@.dispatch(caller@, call) {
                Ok(after) => result.is_ok() && final(self)@ == after,
                Err(error) => result == Err::<(), ErrorKind>(error) && final(self)@ == old(self)@,
            },
    {
        match call {
            Call::Transfer { to, amount } => self.transfer(caller, to, amount),
        }
    }
}

} // verus!
