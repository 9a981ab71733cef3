use escrow_engine::address::Address;
use escrow_engine::ledger::{Ledger, TransferError};

#[test]
fn fresh_ledger_holds_nothing() {
    let l = Ledger::new(Address::new(4));
    assert_eq!(l.token(), Address::new(4));
    assert_eq!(l.balance_of(Address::new(1)), 0);
    assert_eq!(l.balance_of(Address::new(999)), 0);
}

#[test]
fn mint_credits_only_the_target() {
    let mut l = Ledger::new(Address::new(4));
    l.mint(Address::new(1), 70);
    l.mint(Address::new(1), 5);
    assert_eq!(l.balance_of(Address::new(1)), 75);
    assert_eq!(l.balance_of(Address::new(2)), 0);
}

#[test]
fn transfer_moves_exactly_the_amount() {
    let mut l = Ledger::new(Address::new(4));
    l.mint(Address::new(1), 100);
    assert_eq!(l.transfer(Address::new(1), Address::new(2), 30), Ok(()));
    assert_eq!(l.balance_of(Address::new(1)), 70);
    assert_eq!(l.balance_of(Address::new(2)), 30);
}

#[test]
fn transfer_rejects_negative_amounts() {
    let mut l = Ledger::new(Address::new(4));
    l.mint(Address::new(1), 100);
    assert_eq!(
        l.transfer(Address::new(1), Address::new(2), -1),
        Err(TransferError::NegativeAmount)
    );
    assert_eq!(l.balance_of(Address::new(1)), 100);
    assert_eq!(l.balance_of(Address::new(2)), 0);
}

#[test]
fn transfer_rejects_an_uncovered_amount() {
    let mut l = Ledger::new(Address::new(4));
    l.mint(Address::new(1), 100);
    assert_eq!(
        l.transfer(Address::new(1), Address::new(2), 101),
        Err(TransferError::InsufficientBalance)
    );
    assert_eq!(l.balance_of(Address::new(1)), 100);
}

#[test]
fn transfer_rejects_a_receiver_overflow() {
    let mut l = Ledger::new(Address::new(4));
    l.mint(Address::new(1), 10);
    l.mint(Address::new(2), i128::MAX);
    assert_eq!(
        l.transfer(Address::new(1), Address::new(2), 1),
        Err(TransferError::BalanceOverflow)
    );
    assert_eq!(l.balance_of(Address::new(1)), 10);
    assert_eq!(l.balance_of(Address::new(2)), i128::MAX);
}

#[test]
fn transfer_to_self_changes_nothing() {
    let mut l = Ledger::new(Address::new(4));
    l.mint(Address::new(1), 100);
    assert_eq!(l.transfer(Address::new(1), Address::new(1), 60), Ok(()));
    assert_eq!(l.balance_of(Address::new(1)), 100);
    assert_eq!(
        l.transfer(Address::new(1), Address::new(1), 101),
        Err(TransferError::InsufficientBalance)
    );
}

#[test]
fn transfers_preserve_the_total_supply() {
    let mut l = Ledger::new(Address::new(4));
    l.mint(Address::new(1), 500);
    l.mint(Address::new(2), 250);
    assert_eq!(l.transfer(Address::new(1), Address::new(3), 123), Ok(()));
    assert_eq!(l.transfer(Address::new(2), Address::new(1), 250), Ok(()));
    let total: i128 = l.balance_of(Address::new(1))
        + l.balance_of(Address::new(2))
        + l.balance_of(Address::new(3));
    assert_eq!(total, 750);
}
