use vstd::prelude::*;
use std::collections::HashMap;
use crate::address::Address;

verus! {

broadcast use vstd::std_specs::hash::group_hash_axioms;

/// Why the ledger refused to move funds.
#[derive(Clone, Copy, PartialEq, Eq, Structural, Debug)]
pub enum TransferError {
    NegativeAmount,
    InsufficientBalance,
    BalanceOverflow,
}

/// Whether `amount` of the asset can move from `from` to `to` when the
/// accounts hold the balances in `bal`.
pub open spec fn can_transfer(bal: Map<Address, int>, from: Address, to: Address, amount: int) -> bool {
    &&& 0 <= amount
    &&& amount <= bal[from]
    &&& from != to ==> bal[to] + amount <= i128::MAX
}

/// The balances after `amount` of the asset moved from `from` to `to`.
pub open spec fn transfer_effect(bal: Map<Address, int>, from: Address, to: Address, amount: int) -> Map<Address, int> {
    if from == to {
        bal
    } else {
        bal.insert(from, bal[from] - amount).insert(to, bal[to] + amount)
    }
}

/// The ledger of one fungible asset: balances of addressable accounts, moved
/// atomically by `transfer`. An account it has never seen holds zero.
pub struct Ledger {
    token: Address,
    accounts: HashMap<u64, i128>,
}

impl Ledger {
    /// The address of the token this ledger keeps balances for.
    pub closed spec fn spec_token(&self) -> Address {
        self.token
    }

    /// The balance of one account, as a mathematical integer.
    pub closed spec fn spec_balance(&self, a: Address) -> int {
        if self.accounts@.contains_key(a.id) {
            self.accounts@[a.id] as int
        } else {
            0
        }
    }

    /// All balances at once, as a total map over accounts.
    pub closed spec fn balances(&self) -> Map<Address, int> {
        Map::new(|a: Address| true, |a: Address| self.spec_balance(a))
    }

    /// No account ever holds a negative balance.
    pub closed spec fn wf(&self) -> bool {
        forall|a: Address| 0 <= #[trigger] self.spec_balance(a)
    }

    /// `balances()` agrees with `spec_balance` at every account.
    pub broadcast proof fn lemma_balances_index(&self, a: Address)
        ensures
            #[trigger] self.balances()[a] == self.spec_balance(a),
    {
    }

    /// A fresh ledger for `token`, with every balance zero.
    pub fn new(token: Address) -> (r: Ledger)
        ensures
            r.wf(),
            r.spec_token() == token,
            forall|a: Address| r.spec_balance(a) == 0,
    {
        Ledger { token, accounts: HashMap::new() }
    }

    pub fn token(&self) -> (r: Address)
        ensures
            r == self.spec_token(),
    {
        self.token
    }

    pub fn balance_of(&self, a: Address) -> (r: i128)
        ensures
            r as int == self.spec_balance(a),
    {
        match self.accounts.get(&a.id) {
            Some(b) => *b,
            None => 0,
        }
    }

    /// Issues `amount` new units of the asset to `to`.
    pub fn mint(&mut self, to: Address, amount: i128)
        requires
            old(self).wf(),
            0 <= amount,
            old(self).spec_balance(to) + amount <= i128::MAX,
        ensures
            final(self).wf(),
            final(self).spec_token() == old(self).spec_token(),
            final(self).spec_balance(to) == old(self).spec_balance(to) + amount,
            forall|a: Address| a != to ==> final(self).spec_balance(a) == old(self).spec_balance(a),
    {
        let cur: i128 = self.balance_of(to);
        self.accounts.insert(to.id, cur + amount);
        proof {
            assert forall|a: Address| 0 <= self.spec_balance(a) by {
                assert(0 <= old(self).spec_balance(a));
            }
        }
    }

    /// Moves `amount` from `from` to `to`, atomically: on any error no balance
    /// changes. Fails exactly when the amount is negative, `from` cannot cover
    /// it, or `to` cannot hold it.
    pub fn transfer(&mut self, from: Address, to: Address, amount: i128) -> (r: Result<(), TransferError>)
        requires
            old(self).wf(),
        ensures
            final(self).wf(),
            final(self).spec_token() == old(self).spec_token(),
            r is Ok <==> can_transfer(old(self).balances(), from, to, amount as int),
            r is Ok ==> forall|a: Address|
                final(self).spec_balance(a) == transfer_effect(old(self).balances(), from, to, amount as int)[a],
            r is Err ==> forall|a: Address| final(self).spec_balance(a) == old(self).spec_balance(a),
            r == Err::<(), TransferError>(TransferError::NegativeAmount) <==> amount < 0,
            r == Err::<(), TransferError>(TransferError::InsufficientBalance)
                <==> 0 <= amount && old(self).spec_balance(from) < amount,
            r == Err::<(), TransferError>(TransferError::BalanceOverflow)
                <==> 0 <= amount <= old(self).spec_balance(from) && from != to
                    && old(self).spec_balance(to) + amount > i128::MAX,
    {
        if amount < 0 {
            return Err(TransferError::NegativeAmount);
        }
        let from_bal: i128 = self.balance_of(from);
        if from_bal < amount {
            return Err(TransferError::InsufficientBalance);
        }
        if from == to {
            return Ok(());
        }
        let to_bal: i128 = self.balance_of(to);
        if to_bal > i128::MAX - amount {
            return Err(TransferError::BalanceOverflow);
        }
        self.accounts.insert(from.id, from_bal - amount);
        self.accounts.insert(to.id, to_bal + amount);
        proof {
            assert forall|a: Address| 0 <= self.spec_balance(a) by {
                assert(0 <= old(self).spec_balance(a));
            }
        }
        Ok(())
    }
}

} // verus!
