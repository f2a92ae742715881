use gaia::balances::Balances;
use gaia::primitives::{DispatchError, Origin};
use gaia::proposals::TreasuryHandler;
use gaia::treasury::{Error, Event, Pallet};

const ALICE: u64 = 1;
const BOB: u64 = 2;

/// A treasury whose depositors Alice and Bob hold 1 000 free each.
fn new_treasury() -> Pallet {
    Pallet::new(Balances::genesis(vec![(ALICE, 1_000), (BOB, 1_000)]))
}

fn treasury_err(e: Error) -> DispatchError {
    DispatchError::Treasury(e)
}

fn assert_noop(p: &mut Pallet, call: impl FnOnce(&mut Pallet) -> Result<(), DispatchError>, expected: DispatchError) {
    let before = format!("{:?}", p);
    assert_eq!(call(p), Err(expected));
    assert_eq!(format!("{:?}", p), before);
}

#[test]
fn deposit_fee_increases_treasury_balance() {
    let mut t = new_treasury();
    assert_eq!(t.deposit_fee(Origin::Signed(ALICE), 50), Ok(()));
    assert_eq!(t.treasury_balance, 50);
}

#[test]
fn deposit_fee_rejects_zero_amount() {
    let mut t = new_treasury();
    assert_noop(&mut t, |t| t.deposit_fee(Origin::Signed(ALICE), 0), treasury_err(Error::ZeroAmount));
}

#[test]
fn disburse_reduces_balance_when_funded() {
    let mut t = new_treasury();
    assert_eq!(t.deposit_fee(Origin::Signed(ALICE), 100), Ok(()));
    assert_eq!(t.disburse(Origin::Root, BOB, 40), Ok(()));
    assert_eq!(t.treasury_balance, 60);
}

#[test]
fn disburse_rejects_when_insufficient_funds() {
    let mut t = new_treasury();
    assert_eq!(t.deposit_fee(Origin::Signed(ALICE), 20), Ok(()));
    assert_noop(&mut t, |t| t.disburse(Origin::Root, BOB, 50), treasury_err(Error::InsufficientFunds));
    assert_eq!(t.treasury_balance, 20);
}

#[test]
fn proposals_treasury_handler_disburses_once_funded() {
    let mut t = new_treasury();
    assert_eq!(t.deposit_fee(Origin::Signed(ALICE), 80), Ok(()));
    assert_eq!(<Pallet as TreasuryHandler>::disburse(&mut t, &BOB, 30), Ok(()));
    assert_eq!(t.treasury_balance, 50);
}

#[test]
fn disburse_requires_root_origin() {
    let mut t = new_treasury();
    assert_eq!(t.deposit_fee(Origin::Signed(ALICE), 20), Ok(()));
    assert_noop(&mut t, |t| t.disburse(Origin::Signed(ALICE), BOB, 10), DispatchError::BadOrigin);
}

// --- Further cases of this library ---

#[test]
fn deposit_fee_records_event_with_new_balance() {
    let mut t = new_treasury();
    assert_eq!(t.deposit_fee(Origin::Signed(ALICE), 30), Ok(()));
    assert_eq!(t.deposit_fee(Origin::Signed(BOB), 12), Ok(()));
    assert_eq!(t.last_event(), Some(Event::FeeDeposited { from: BOB, amount: 12, new_balance: 42 }));
    assert_eq!(t.disburse(Origin::Root, ALICE, 2), Ok(()));
    assert_eq!(t.last_event(), Some(Event::Disbursed { to: ALICE, amount: 2, new_balance: 40 }));
}

#[test]
fn deposit_refuses_overflow_and_unsigned() {
    let mut t = Pallet::new(Balances::genesis(vec![(ALICE, u128::MAX), (BOB, 10)]));
    assert_eq!(t.deposit_fee(Origin::Signed(ALICE), u128::MAX), Ok(()));
    assert_noop(&mut t, |t| t.deposit_fee(Origin::Signed(BOB), 1), treasury_err(Error::BalanceOverflow));
    assert_noop(&mut t, |t| t.deposit_fee(Origin::Root, 1), DispatchError::BadOrigin);
    assert_noop(&mut t, |t| t.deposit_fee(Origin::Unsigned, 1), DispatchError::BadOrigin);
}

#[test]
fn disburse_of_zero_is_refused() {
    let mut t = new_treasury();
    assert_eq!(t.deposit_fee(Origin::Signed(ALICE), 5), Ok(()));
    assert_noop(&mut t, |t| t.disburse(Origin::Root, BOB, 0), treasury_err(Error::ZeroAmount));
}

#[test]
fn deposit_then_disburse_restores_balance() {
    let mut t = new_treasury();
    assert_eq!(t.deposit_fee(Origin::Signed(ALICE), 70), Ok(()));
    let before = t.treasury_balance;
    assert_eq!(t.do_deposit(&BOB, 25), Ok(()));
    assert_eq!(t.do_disburse(&BOB, 25), Ok(()));
    assert_eq!(t.treasury_balance, before);
}

#[test]
fn balance_is_recorded_deposits_minus_disbursements() {
    let mut t = new_treasury();
    assert_eq!(t.deposit_fee(Origin::Signed(ALICE), 300), Ok(()));
    assert_eq!(t.disburse(Origin::Root, BOB, 120), Ok(()));
    assert_eq!(t.disburse(Origin::Root, BOB, 500).is_err(), true);
    assert_eq!(<Pallet as TreasuryHandler>::disburse(&mut t, &ALICE, 30), Ok(()));
    assert_eq!(t.deposit_fee(Origin::Signed(BOB), 7), Ok(()));
    let net: i128 = t
        .events
        .iter()
        .map(|e| match e {
            Event::FeeDeposited { amount, .. } => *amount as i128,
            Event::Disbursed { amount, .. } => -(*amount as i128),
        })
        .sum();
    assert_eq!(net, 157);
    assert_eq!(t.treasury_balance, 157);
    assert_eq!(t.events.len(), 4);
}

#[test]
fn deposit_and_disbursement_move_free_balances() {
    let mut t = new_treasury();
    let account = Pallet::account_id();
    assert_eq!(t.account_balance(), 0);
    assert_eq!(t.deposit_fee(Origin::Signed(ALICE), 300), Ok(()));
    assert_eq!(t.currency.free_balance(ALICE), 700);
    assert_eq!(t.currency.free_balance(account), 300);
    assert_eq!(t.disburse(Origin::Root, BOB, 120), Ok(()));
    assert_eq!(t.currency.free_balance(BOB), 1_120);
    assert_eq!(t.account_balance(), 180);
    assert_eq!(t.treasury_balance, 180);
}

#[test]
fn deposit_beyond_free_balance_is_refused() {
    let mut t = new_treasury();
    assert_noop(
        &mut t,
        |t| t.deposit_fee(Origin::Signed(ALICE), 1_001),
        DispatchError::Token(gaia::primitives::TokenError::FundsUnavailable),
    );
    assert_noop(
        &mut t,
        |t| t.deposit_fee(Origin::Signed(7), 1),
        DispatchError::Token(gaia::primitives::TokenError::FundsUnavailable),
    );
}

#[test]
fn disbursement_refused_when_recipient_would_overflow() {
    let mut t = Pallet::new(Balances::genesis(vec![(ALICE, 10), (BOB, u128::MAX)]));
    assert_eq!(t.deposit_fee(Origin::Signed(ALICE), 10), Ok(()));
    assert_noop(
        &mut t,
        |t| t.disburse(Origin::Root, BOB, 1),
        DispatchError::Arithmetic(gaia::primitives::ArithmeticError::Overflow),
    );
}

#[test]
fn treasury_account_is_derived_from_its_pallet_id() {
    let id = gaia::treasury::treasury_pallet_id();
    assert_eq!(&id.0, b"ga/trsry");
    assert_eq!(Pallet::account_id(), id.into_account_truncating());
    assert_ne!(Pallet::account_id(), gaia::runtime::governance_pallet_id().into_account_truncating());
}
