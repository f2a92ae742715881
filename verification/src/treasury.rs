//! The treasury pallet: community funds held by the treasury's sovereign
//! account, an account derived from the treasury pallet id, together with a
//! ledger (`TreasuryBalance`) of the funds expected there. Any signed account
//! may deposit a fee, which moves the amount from the payer to the sovereign
//! account; funds leave only through root-origin disbursements or through the
//! proposals pallet's `TreasuryHandler`, which move the amount from the
//! sovereign account to the recipient. The ledger can never go negative: a
//! disbursement larger than the ledger is refused and changes nothing, as is
//! any movement that the balances refuse. Every deposit and disbursement is
//! recorded as an event, and the ledger is always the recorded deposits minus
//! the recorded disbursements.
use vstd::prelude::*;

use crate::balances::{free_in, transfer_outcome, Balances};
use crate::primitives::{
    ensure_root, ensure_signed, pallet_account, signer_of, AccountId, Balance, DispatchError, Origin,
    PalletId,
};
use crate::proposals::TreasuryHandler;

verus! {

/// Errors of the treasury pallet.
#[derive(Clone, Copy, Debug, PartialEq, Eq, Structural)]
pub enum Error {
    /// A deposit or disbursement of zero.
    ZeroAmount,
    /// The treasury holds less than the requested disbursement.
    InsufficientFunds,
    /// The deposit would overflow the balance type.
    BalanceOverflow,
}

/// Events of the treasury pallet.
#[derive(Clone, Copy, Debug, PartialEq, Eq, Structural)]
pub enum Event {
    /// A fee was deposited into the treasury.
    FeeDeposited { from: AccountId, amount: Balance, new_balance: Balance },
    /// Funds were disbursed from the treasury.
    Disbursed { to: AccountId, amount: Balance, new_balance: Balance },
}

/// State of the treasury pallet.
#[derive(Debug)]
pub struct Pallet {
    /// `TreasuryBalance`: the ledger of the funds expected in the treasury.
    pub treasury_balance: Balance,
    /// Events deposited by this pallet, oldest first.
    pub events: Vec<Event>,
    /// The balances through which the treasury moves funds.
    pub currency: Balances,
}

/// The treasury pallet id: `ga/trsry`.
pub open spec fn spec_treasury_pallet_id() -> Seq<u8> {
    seq![0x67u8, 0x61u8, 0x2fu8, 0x74u8, 0x72u8, 0x73u8, 0x72u8, 0x79u8]
}

/// The treasury's sovereign account, derived from its pallet id.
pub open spec fn treasury_account() -> AccountId {
    pallet_account(spec_treasury_pallet_id()) as AccountId
}

/// The treasury pallet id: `ga/trsry`.
pub fn treasury_pallet_id() -> (id: PalletId)
    ensures
        id.0@ == spec_treasury_pallet_id(),
{
    PalletId([0x67u8, 0x61u8, 0x2fu8, 0x74u8, 0x72u8, 0x73u8, 0x72u8, 0x79u8])
}

/// The ledger after depositing `amount` into `balance`, or the error that
/// refuses it before any funds move.
pub open spec fn deposit_outcome(balance: Balance, amount: Balance) -> Result<Balance, Error> {
    if amount == 0 {
        Err(Error::ZeroAmount)
    } else if balance + amount > Balance::MAX {
        Err(Error::BalanceOverflow)
    } else {
        Ok((balance + amount) as Balance)
    }
}

/// The ledger after disbursing `amount` from `balance`, or the error that
/// refuses it before any funds move.
pub open spec fn disburse_outcome(balance: Balance, amount: Balance) -> Result<Balance, Error> {
    if amount == 0 {
        Err(Error::ZeroAmount)
    } else if amount > balance {
        Err(Error::InsufficientFunds)
    } else {
        Ok((balance - amount) as Balance)
    }
}

/// What a deposit of `amount` by `from` does to the treasury `before`: on
/// success the ledger grows by the amount, the amount moves from `from` to the
/// sovereign account and a `FeeDeposited` event is recorded; on failure
/// nothing changes and the error is that of the ledger or of the transfer.
pub open spec fn deposit_effect(
    before: Pallet,
    after: Pallet,
    from: AccountId,
    amount: Balance,
    r: Result<(), DispatchError>,
) -> bool {
    match deposit_outcome(before.treasury_balance, amount) {
        Err(e) => r == Err::<(), DispatchError>(DispatchError::Treasury(e)) && after == before,
        Ok(new_balance) => match transfer_outcome(
            before.currency.free@,
            from,
            treasury_account(),
            amount,
        ) {
            Err(e) => r == Err::<(), DispatchError>(e) && after == before,
            Ok(free) => {
                &&& r is Ok
                &&& after.treasury_balance == new_balance
                &&& after.currency.free@ == free
                &&& after.events@ == before.events@.push(
                    Event::FeeDeposited { from, amount, new_balance },
                )
            },
        },
    }
}

/// What a disbursement of `amount` to `to` does to the treasury `before`: on
/// success the ledger falls by the amount, the amount moves from the
/// sovereign account to `to` and a `Disbursed` event is recorded; on failure
/// nothing changes and the error is that of the ledger or of the transfer.
pub open spec fn disburse_effect_of(
    before: Pallet,
    after: Pallet,
    to: AccountId,
    amount: Balance,
    r: Result<(), DispatchError>,
) -> bool {
    match disburse_outcome(before.treasury_balance, amount) {
        Err(e) => r == Err::<(), DispatchError>(DispatchError::Treasury(e)) && after == before,
        Ok(new_balance) => match transfer_outcome(
            before.currency.free@,
            treasury_account(),
            to,
            amount,
        ) {
            Err(e) => r == Err::<(), DispatchError>(e) && after == before,
            Ok(free) => {
                &&& r is Ok
                &&& after.treasury_balance == new_balance
                &&& after.currency.free@ == free
                &&& after.events@ == before.events@.push(
                    Event::Disbursed { to, amount, new_balance },
                )
            },
        },
    }
}

/// The net amount that `events` moved into the treasury: deposits in,
/// disbursements out.
pub open spec fn net_flow(events: Seq<Event>) -> int
    decreases events.len(),
{
    if events.len() == 0 {
        0
    } else {
        net_flow(events.drop_last()) + match events.last() {
            Event::FeeDeposited { amount, .. } => amount as int,
            Event::Disbursed { amount, .. } => -(amount as int),
        }
    }
}

impl Pallet {
    /// The ledger balances: the treasury holds exactly what its recorded
    /// deposits brought in minus what its recorded disbursements took out.
    pub open spec fn wf(&self) -> bool {
        self.treasury_balance == net_flow(self.events@)
    }
}

impl Pallet {
    /// A treasury with an empty ledger and no events, moving funds through
    /// `currency`.
    pub fn new(currency: Balances) -> (p: Self)
        ensures
            p.treasury_balance == 0,
            p.events@ == Seq::<Event>::empty(),
            p.currency == currency,
            p.wf(),
    {
        Pallet { treasury_balance: 0, events: Vec::new(), currency }
    }

    /// The treasury's sovereign account.
    pub fn account_id() -> (a: AccountId)
        ensures
            a == treasury_account(),
    {
        treasury_pallet_id().into_account_truncating()
    }

    /// The current ledger balance.
    pub fn balance(&self) -> (b: Balance)
        ensures
            b == self.treasury_balance,
    {
        self.treasury_balance
    }

    /// The free balance of the treasury's sovereign account.
    pub fn account_balance(&self) -> (b: Balance)
        ensures
            b == free_in(self.currency.free@, treasury_account()),
    {
        self.currency.free_balance(Self::account_id())
    }

    /// The most recent event, if any.
    pub fn last_event(&self) -> (e: Option<Event>)
        ensures
            e == (if self.events@.len() == 0 {
                None
            } else {
                Some(self.events@.last())
            }),
    {
        if self.events.len() == 0 {
            None
        } else {
            Some(self.events[self.events.len() - 1])
        }
    }

    /// Moves `amount` from `from` into the treasury's sovereign account and
    /// adds it to the ledger.
    pub fn do_deposit(&mut self, from: &AccountId, amount: Balance) -> (r: Result<(), DispatchError>)
        ensures
            old(self).wf() ==> final(self).wf(),
            deposit_effect(*old(self), *final(self), *from, amount, r),
    {
        if amount == 0 {
            return Err(DispatchError::Treasury(Error::ZeroAmount));
        }
        let new_balance = match self.treasury_balance.checked_add(amount) {
            Some(b) => b,
            None => {
                return Err(DispatchError::Treasury(Error::BalanceOverflow));
            },
        };
        self.currency.transfer(*from, Self::account_id(), amount)?;
        self.treasury_balance = new_balance;
        let ghost before = self.events@;
        self.events.push(Event::FeeDeposited { from: *from, amount, new_balance });
        assert(self.events@.drop_last() =~= before);
        Ok(())
    }

    /// Moves `amount` from the treasury's sovereign account to `to` and takes
    /// it off the ledger.
    pub fn do_disburse(&mut self, to: &AccountId, amount: Balance) -> (r: Result<(), DispatchError>)
        ensures
            old(self).wf() ==> final(self).wf(),
            disburse_effect_of(*old(self), *final(self), *to, amount, r),
    {
        if amount == 0 {
            return Err(DispatchError::Treasury(Error::ZeroAmount));
        }
        let new_balance = match self.treasury_balance.checked_sub(amount) {
            Some(b) => b,
            None => {
                return Err(DispatchError::Treasury(Error::InsufficientFunds));
            },
        };
        self.currency.transfer(Self::account_id(), *to, amount)?;
        self.treasury_balance = new_balance;
        let ghost before = self.events@;
        self.events.push(Event::Disbursed { to: *to, amount, new_balance });
        assert(self.events@.drop_last() =~= before);
        Ok(())
    }

    /// Dispatchable: a signed account deposits `amount` as a fee.
    pub fn deposit_fee(&mut self, origin: Origin, amount: Balance) -> (r: Result<(), DispatchError>)
        ensures
            old(self).wf() ==> final(self).wf(),
            match signer_of(origin) {
                None => r == Err::<(), DispatchError>(DispatchError::BadOrigin) && *final(self)
                    == *old(self),
                Some(who) => deposit_effect(*old(self), *final(self), who, amount, r),
            },
    {
        let who = ensure_signed(origin)?;
        self.do_deposit(&who, amount)
    }

    /// Dispatchable: the root origin disburses `amount` to `to`.
    pub fn disburse(&mut self, origin: Origin, to: AccountId, amount: Balance) -> (r: Result<
        (),
        DispatchError,
    >)
        ensures
            old(self).wf() ==> final(self).wf(),
            origin != Origin::Root ==> r == Err::<(), DispatchError>(DispatchError::BadOrigin)
                && *final(self) == *old(self),
            origin == Origin::Root ==> disburse_effect_of(*old(self), *final(self), to, amount, r),
    {
        ensure_root(origin)?;
        self.do_disburse(&to, amount)
    }
}

impl TreasuryHandler for Pallet {
    open spec fn disburse_effect(
        before: Self,
        after: Self,
        to: AccountId,
        amount: Balance,
        r: Result<(), DispatchError>,
    ) -> bool {
        disburse_effect_of(before, after, to, amount, r)
    }

    fn disburse(&mut self, to: &AccountId, amount: Balance) -> (r: Result<(), DispatchError>) {
        self.do_disburse(to, amount)
    }
}

/// A disbursement made through the proposals pallet's `TreasuryHandler`
/// keeps the ledger balanced, as direct deposits and disbursements do.
pub proof fn lemma_handler_disbursement_keeps_ledger(
    before: Pallet,
    after: Pallet,
    to: AccountId,
    amount: Balance,
    r: Result<(), DispatchError>,
)
    requires
        before.wf(),
        <Pallet as TreasuryHandler>::disburse_effect(before, after, to, amount, r),
    ensures
        after.wf(),
{
    if r is Ok {
        assert(after.events@.drop_last() =~= before.events@);
    }
}

/// Depositing an amount and then disbursing the same amount leaves the
/// ledger as it was.
pub proof fn lemma_deposit_then_disburse_restores_balance(balance: Balance, amount: Balance)
    requires
        deposit_outcome(balance, amount) is Ok,
    ensures
        disburse_outcome(deposit_outcome(balance, amount)->Ok_0, amount) == Ok::<Balance, Error>(
            balance,
        ),
{
}

/// A successful deposit by an account other than the treasury's moves real
/// tokens: the depositor's free balance falls by the amount, the sovereign
/// account's rises by it, and the ledger rises by it.
pub proof fn lemma_deposit_moves_tokens(
    before: Pallet,
    after: Pallet,
    from: AccountId,
    amount: Balance,
    r: Result<(), DispatchError>,
)
    requires
        deposit_effect(before, after, from, amount, r),
        r is Ok,
        from != treasury_account(),
    ensures
        free_in(after.currency.free@, from) == free_in(before.currency.free@, from) - amount,
        free_in(after.currency.free@, treasury_account()) == free_in(
            before.currency.free@,
            treasury_account(),
        ) + amount,
        after.treasury_balance == before.treasury_balance + amount,
{
}

/// A successful disbursement to an account other than the treasury's moves
/// real tokens: the sovereign account's free balance falls by the amount, the
/// recipient's rises by it, and the ledger falls by it.
pub proof fn lemma_disbursement_moves_tokens(
    before: Pallet,
    after: Pallet,
    to: AccountId,
    amount: Balance,
    r: Result<(), DispatchError>,
)
    requires
        disburse_effect_of(before, after, to, amount, r),
        r is Ok,
        to != treasury_account(),
    ensures
        free_in(after.currency.free@, treasury_account()) == free_in(
            before.currency.free@,
            treasury_account(),
        ) - amount,
        free_in(after.currency.free@, to) == free_in(before.currency.free@, to) + amount,
        after.treasury_balance == before.treasury_balance - amount,
{
}

} // verus!
