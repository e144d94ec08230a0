use vstd::prelude::*;
use std::collections::HashMap;
use crate::errors::LedgerError;

verus! {

broadcast use vstd::std_specs::hash::group_hash_axioms;

/// A caller identity. Signature verification is assumed to have happened
/// before the core is invoked: every operation receives an identity that has
/// already been established as the caller's.
pub type Identity = u64;

/// The balance-holding substrate. It moves units between accounts as atomic
/// all-or-nothing primitives: either the funds move and the call returns
/// success, or no balance changes and an error is returned.
///
/// Authorization rule: a party may move funds out of an account exactly when
/// it is that account's identity. Program-controlled custody works by giving
/// the custodial account a derived identity that the program itself can
/// present as the authorizing party.
pub struct Ledger {
    accounts: HashMap<u64, u64>,
}

/// Holds when a transfer of `amount` from `from` to `to`, authorized by
/// `authorizer`, must succeed on ledger `pre`.
pub open spec fn transfer_allowed(
    pre: Ledger,
    from: Identity,
    to: Identity,
    amount: u64,
    authorizer: Identity,
) -> bool {
    &&& authorizer == from
    &&& pre.balance_of(from) >= amount
    &&& from == to || pre.balance_of(to) + amount <= u64::MAX
}

/// The error a failing transfer reports, checked in this order:
/// authorization, then funds, then overflow of the destination balance.
pub open spec fn transfer_error(
    pre: Ledger,
    from: Identity,
    to: Identity,
    amount: u64,
    authorizer: Identity,
) -> LedgerError {
    if authorizer != from {
        LedgerError::Unauthorized
    } else if pre.balance_of(from) < amount {
        LedgerError::InsufficientFunds
    } else {
        LedgerError::MathOverflow
    }
}

/// Relates the ledgers before and after a successful transfer: the amount
/// leaves `from`, arrives at `to`, and no other account changes. A transfer
/// to the source account itself leaves the ledger as it was.
pub open spec fn moves_funds(
    pre: Ledger,
    post: Ledger,
    from: Identity,
    to: Identity,
    amount: u64,
) -> bool {
    &&& from != to ==> post.balance_of(from) == pre.balance_of(from) - amount
    &&& from != to ==> post.balance_of(to) == pre.balance_of(to) + amount
    &&& from == to ==> post == pre
    &&& forall|a: Identity|
        a != from && a != to ==> #[trigger] post.balance_of(a) == pre.balance_of(a)
}

impl Ledger {
    /// The mathematical content of the ledger: which accounts exist and what
    /// they hold.
    pub closed spec fn balances(self) -> Map<u64, u64> {
        self.accounts@
    }

    /// The balance of `who`; an account never credited holds zero.
    pub open spec fn balance_of(self, who: Identity) -> u64 {
        if self.balances().contains_key(who) {
            self.balances()[who]
        } else {
            0u64
        }
    }

    /// An empty ledger: every account holds zero.
    pub fn new() -> (l: Ledger)
        ensures
            forall|a: Identity| #[trigger] l.balance_of(a) == 0u64,
    {
        Ledger { accounts: HashMap::new() }
    }

    /// Reads a balance.
    pub fn balance(&self, who: Identity) -> (r: u64)
        ensures
            r == self.balance_of(who),
    {
        match self.accounts.get(&who) {
            Some(b) => *b,
            None => 0,
        }
    }

    /// Creates `amount` new units in `to`'s account. Fails only when the
    /// credited balance would wrap, and then changes nothing.
    pub fn mint(&mut self, to: Identity, amount: u64) -> (r: Result<(), LedgerError>)
        ensures
            r is Ok <==> r == Ok::<(), LedgerError>(()),
            r == Ok::<(), LedgerError>(()) <==> old(self).balance_of(to) + amount <= u64::MAX,
            r is Ok ==> final(self).balance_of(to) == old(self).balance_of(to) + amount,
            r is Ok ==> forall|a: Identity|
                a != to ==> #[trigger] final(self).balance_of(a) == old(self).balance_of(a),
            r is Err ==> r == Err::<(), LedgerError>(LedgerError::MathOverflow) && *final(self)
                == *old(self),
    {
        let current = self.balance(to);
        match current.checked_add(amount) {
            Some(credited) => {
                self.accounts.insert(to, credited);
                Ok(())
            },
            None => Err(LedgerError::MathOverflow),
        }
    }

    /// Moves `amount` from `from` to `to`, provided `authorizer` may move
    /// funds out of `from`. All-or-nothing: on any error no balance changes.
    pub fn transfer(
        &mut self,
        from: Identity,
        to: Identity,
        amount: u64,
        authorizer: Identity,
    ) -> (r: Result<(), LedgerError>)
        ensures
            r is Ok <==> r == Ok::<(), LedgerError>(()),
            r == Ok::<(), LedgerError>(()) <==> transfer_allowed(*old(self), from, to, amount, authorizer),
            r is Ok ==> moves_funds(*old(self), *final(self), from, to, amount),
            r is Err ==> r == Err::<(), LedgerError>(
                transfer_error(*old(self), from, to, amount, authorizer),
            ) && *final(self) == *old(self),
    {
        if authorizer != from {
            return Err(LedgerError::Unauthorized);
        }
        let from_balance = self.balance(from);
        if from_balance < amount {
            return Err(LedgerError::InsufficientFunds);
        }
        if from == to {
            return Ok(());
        }
        let to_balance = self.balance(to);
        match to_balance.checked_add(amount) {
            Some(credited) => {
                self.accounts.insert(from, from_balance - amount);
                self.accounts.insert(to, credited);
                Ok(())
            },
            None => Err(LedgerError::MathOverflow),
        }
    }
}

} // verus!
