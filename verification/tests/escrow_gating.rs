use escrow_engine::address::Address;
use escrow_engine::escrow::{Error, EscrowContract, Status};
use escrow_engine::ledger::Ledger;

const PATIENT: u64 = 1;
const SPECIALIST: u64 = 2;
const ARBITER: u64 = 3;
const TOKEN: u64 = 4;
const CUSTODY: u64 = 10;
const OUTSIDER: u64 = 9;

fn awaiting_setup() -> (EscrowContract, Ledger) {
    let mut c = EscrowContract::new(Address::new(CUSTODY));
    let r = c.initialize(
        Address::new(PATIENT),
        Address::new(SPECIALIST),
        Address::new(ARBITER),
        Address::new(TOKEN),
        100,
    );
    assert_eq!(r, Ok(()));
    let mut l = Ledger::new(Address::new(TOKEN));
    l.mint(Address::new(PATIENT), 500);
    (c, l)
}

fn funded_setup() -> (EscrowContract, Ledger) {
    let (mut c, mut l) = awaiting_setup();
    assert_eq!(c.deposit(&mut l, Address::new(PATIENT)), Ok(()));
    (c, l)
}

fn snapshot(c: &EscrowContract, l: &Ledger) -> (Option<Status>, usize, [i128; 5]) {
    (
        c.status(),
        c.events().len(),
        [
            l.balance_of(Address::new(PATIENT)),
            l.balance_of(Address::new(SPECIALIST)),
            l.balance_of(Address::new(ARBITER)),
            l.balance_of(Address::new(CUSTODY)),
            l.balance_of(Address::new(OUTSIDER)),
        ],
    )
}

#[test]
fn role_gating_rejects_every_nonmatching_role_pair() {
    // The required roles are: deposit and confirm_release take the patient,
    // request_release the specialist, force_release and force_refund the
    // arbiter. Every other (role, operation) pair must be Unauthorized.
    for wrong_state in [false, true] {
        let (mut c, mut l) = if wrong_state { awaiting_setup() } else { funded_setup() };
        let before = snapshot(&c, &l);
        for id in [SPECIALIST, ARBITER, OUTSIDER] {
            assert_eq!(c.deposit(&mut l, Address::new(id)), Err(Error::Unauthorized));
            assert_eq!(c.confirm_release(&mut l, Address::new(id)), Err(Error::Unauthorized));
        }
        for id in [PATIENT, ARBITER, OUTSIDER] {
            assert_eq!(c.request_release(Address::new(id)), Err(Error::Unauthorized));
        }
        for id in [PATIENT, SPECIALIST, OUTSIDER] {
            assert_eq!(c.force_release(&mut l, Address::new(id)), Err(Error::Unauthorized));
            assert_eq!(c.force_refund(&mut l, Address::new(id)), Err(Error::Unauthorized));
        }
        assert_eq!(snapshot(&c, &l), before);
    }
}

#[test]
fn state_gating_before_deposit() {
    let (mut c, mut l) = awaiting_setup();
    let before = snapshot(&c, &l);
    assert_eq!(c.request_release(Address::new(SPECIALIST)), Err(Error::InvalidState));
    assert_eq!(c.confirm_release(&mut l, Address::new(PATIENT)), Err(Error::InvalidState));
    assert_eq!(c.force_release(&mut l, Address::new(ARBITER)), Err(Error::InvalidState));
    assert_eq!(c.force_refund(&mut l, Address::new(ARBITER)), Err(Error::InvalidState));
    assert_eq!(snapshot(&c, &l), before);
}

#[test]
fn deposit_succeeds_exactly_once() {
    let (mut c, mut l) = awaiting_setup();
    assert_eq!(c.deposit(&mut l, Address::new(PATIENT)), Ok(()));
    assert_eq!(c.deposit(&mut l, Address::new(PATIENT)), Err(Error::InvalidState));
    assert_eq!(c.status(), Some(Status::Funded));
    assert_eq!(l.balance_of(Address::new(CUSTODY)), 100);
    assert_eq!(l.balance_of(Address::new(PATIENT)), 400);
}

#[test]
fn released_is_terminal_for_every_operation() {
    let (mut c, mut l) = funded_setup();
    assert_eq!(c.confirm_release(&mut l, Address::new(PATIENT)), Ok(()));
    let before = snapshot(&c, &l);
    assert_eq!(c.deposit(&mut l, Address::new(PATIENT)), Err(Error::InvalidState));
    assert_eq!(c.request_release(Address::new(SPECIALIST)), Err(Error::InvalidState));
    assert_eq!(c.confirm_release(&mut l, Address::new(PATIENT)), Err(Error::InvalidState));
    assert_eq!(c.force_release(&mut l, Address::new(ARBITER)), Err(Error::InvalidState));
    assert_eq!(c.force_refund(&mut l, Address::new(ARBITER)), Err(Error::InvalidState));
    assert_eq!(snapshot(&c, &l), before);
    assert_eq!(c.status(), Some(Status::Released));
}

#[test]
fn refunded_is_terminal_for_every_operation() {
    let (mut c, mut l) = funded_setup();
    assert_eq!(c.force_refund(&mut l, Address::new(ARBITER)), Ok(()));
    let before = snapshot(&c, &l);
    assert_eq!(c.deposit(&mut l, Address::new(PATIENT)), Err(Error::InvalidState));
    assert_eq!(c.request_release(Address::new(SPECIALIST)), Err(Error::InvalidState));
    assert_eq!(c.confirm_release(&mut l, Address::new(PATIENT)), Err(Error::InvalidState));
    assert_eq!(c.force_release(&mut l, Address::new(ARBITER)), Err(Error::InvalidState));
    assert_eq!(c.force_refund(&mut l, Address::new(ARBITER)), Err(Error::InvalidState));
    assert_eq!(snapshot(&c, &l), before);
    assert_eq!(c.status(), Some(Status::Refunded));
}

#[test]
fn conservation_exactly_one_payout_per_lifetime() {
    // Released path: the patient pays once, the specialist receives once.
    let (mut c, mut l) = funded_setup();
    assert_eq!(c.confirm_release(&mut l, Address::new(PATIENT)), Ok(()));
    assert_eq!(l.balance_of(Address::new(PATIENT)), 400);
    assert_eq!(l.balance_of(Address::new(SPECIALIST)), 100);
    assert_eq!(l.balance_of(Address::new(CUSTODY)), 0);
    assert_eq!(l.balance_of(Address::new(ARBITER)), 0);
    assert_eq!(l.balance_of(Address::new(OUTSIDER)), 0);

    // Refunded path: everything returns to the patient, nobody else moves.
    let (mut c2, mut l2) = funded_setup();
    assert_eq!(c2.force_refund(&mut l2, Address::new(ARBITER)), Ok(()));
    assert_eq!(l2.balance_of(Address::new(PATIENT)), 500);
    assert_eq!(l2.balance_of(Address::new(SPECIALIST)), 0);
    assert_eq!(l2.balance_of(Address::new(CUSTODY)), 0);

    // A settled instance can pay the other party no more: the total that ever
    // left custody stays the one amount.
    assert_eq!(c.force_refund(&mut l, Address::new(ARBITER)), Err(Error::InvalidState));
    assert_eq!(c2.force_release(&mut l2, Address::new(ARBITER)), Err(Error::InvalidState));
    assert_eq!(l.balance_of(Address::new(PATIENT)), 400);
    assert_eq!(l2.balance_of(Address::new(SPECIALIST)), 0);
}
