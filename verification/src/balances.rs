//! Free balances of accounts: the part of the balances pallet that the
//! treasury moves funds through. A transfer fails when the payer holds less
//! than the amount or the payee's balance would overflow, and then changes
//! nothing; otherwise it moves exactly the amount.
use vstd::prelude::*;

use std::collections::BTreeMap;

use crate::primitives::{AccountId, ArithmeticError, Balance, DispatchError, TokenError};

verus! {

/// Free balances by account; an account without an entry holds nothing.
#[derive(Debug)]
pub struct Balances {
    pub free: BTreeMap<AccountId, Balance>,
}

/// The free balance of `who` in `free`, zero where it has no entry.
pub open spec fn free_in(free: Map<AccountId, Balance>, who: AccountId) -> Balance {
    if free.dom().contains(who) {
        free[who]
    } else {
        0
    }
}

/// The free balances after moving `amount` from `from` to `to`, or the error
/// that refuses the transfer.
pub open spec fn transfer_outcome(
    free: Map<AccountId, Balance>,
    from: AccountId,
    to: AccountId,
    amount: Balance,
) -> Result<Map<AccountId, Balance>, DispatchError> {
    if free_in(free, from) < amount {
        Err(DispatchError::Token(TokenError::FundsUnavailable))
    } else if free_in(free, to) + amount > Balance::MAX {
        Err(DispatchError::Arithmetic(ArithmeticError::Overflow))
    } else if from == to {
        Ok(free)
    } else {
        Ok(
            free.insert(from, (free_in(free, from) - amount) as Balance).insert(
                to,
                (free_in(free, to) + amount) as Balance,
            ),
        )
    }
}

/// The free balances that genesis entries set, later entries after earlier ones.
pub open spec fn genesis_free(entries: Seq<(AccountId, Balance)>) -> Map<AccountId, Balance>
    decreases entries.len(),
{
    if entries.len() == 0 {
        Map::empty()
    } else {
        genesis_free(entries.drop_last()).insert(entries.last().0, entries.last().1)
    }
}

/// Whether no account appears twice among the genesis entries.
pub open spec fn distinct_entries(entries: Seq<(AccountId, Balance)>) -> bool {
    forall|i: int, j: int|
        0 <= i < j < entries.len() ==> #[trigger] entries[i].0 != #[trigger] entries[j].0
}

impl Balances {
    /// The balances that genesis sets: each listed account holds its amount.
    pub fn genesis(entries: Vec<(AccountId, Balance)>) -> (b: Self)
        requires
            distinct_entries(entries@),
        ensures
            b.free@ == genesis_free(entries@),
    {
        let mut free: BTreeMap<AccountId, Balance> = BTreeMap::new();
        let mut i: usize = 0;
        while i < entries.len()
            invariant
                i <= entries@.len(),
                free@ == genesis_free(entries@.take(i as int)),
            decreases entries@.len() - i,
        {
            let (who, amount) = entries[i];
            free.insert(who, amount);
            assert(entries@.take(i + 1).drop_last() =~= entries@.take(i as int));
            i = i + 1;
        }
        assert(entries@.take(entries@.len() as int) =~= entries@);
        Balances { free }
    }

    /// The free balance of `who`.
    pub fn free_balance(&self, who: AccountId) -> (r: Balance)
        ensures
            r == free_in(self.free@, who),
    {
        match self.free.get(&who) {
            Some(b) => *b,
            None => 0,
        }
    }

    /// Moves `amount` from `from` to `to`; refused, with nothing changed, where
    /// `from` holds less or `to` would overflow.
    pub fn transfer(&mut self, from: AccountId, to: AccountId, amount: Balance) -> (r: Result<
        (),
        DispatchError,
    >)
        ensures
            match transfer_outcome(old(self).free@, from, to, amount) {
                Ok(free) => r is Ok && final(self).free@ == free,
                Err(e) => r == Err::<(), DispatchError>(e) && *final(self) == *old(self),
            },
    {
        let from_balance = self.free_balance(from);
        let to_balance = self.free_balance(to);
        if from_balance < amount {
            return Err(DispatchError::Token(TokenError::FundsUnavailable));
        }
        let credited = match to_balance.checked_add(amount) {
            Some(v) => v,
            None => {
                return Err(DispatchError::Arithmetic(ArithmeticError::Overflow));
            },
        };
        if from == to {
            return Ok(());
        }
        self.free.insert(from, from_balance - amount);
        self.free.insert(to, credited);
        Ok(())
    }
}

/// A transfer between two accounts moves exactly the amount: the payer's
/// free balance falls by it, the payee's rises by it, and no other account's
/// changes.
pub proof fn lemma_transfer_moves_amount(
    free: Map<AccountId, Balance>,
    from: AccountId,
    to: AccountId,
    amount: Balance,
    other: AccountId,
)
    requires
        transfer_outcome(free, from, to, amount) is Ok,
        from != to,
        other != from && other != to,
    ensures
        free_in(transfer_outcome(free, from, to, amount)->Ok_0, from) == free_in(free, from) - amount,
        free_in(transfer_outcome(free, from, to, amount)->Ok_0, to) == free_in(free, to) + amount,
        free_in(transfer_outcome(free, from, to, amount)->Ok_0, other) == free_in(free, other),
{
}

} // verus!
