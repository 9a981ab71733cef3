use escrow_engine::address::Address;
use escrow_engine::distributor::{DataKey, Distributor, RewardEvent};
use escrow_engine::ledger::Ledger;

#[test]
fn initialize_configures_admin_and_token() {
    let mut d = Distributor::new(Address::new(20));
    assert!(!d.has_entry(DataKey::Admin));
    d.initialize(Address::new(5), Address::new(4));
    assert!(d.has_entry(DataKey::Admin));
    assert!(d.has_entry(DataKey::Token));
    assert_eq!(d.admin(), Some(Address::new(5)));
    assert_eq!(d.token(), Some(Address::new(4)));
    assert_eq!(d.address(), Address::new(20));
}

#[test]
fn reward_patient_pays_out_of_custody_and_logs_it() {
    let admin = Address::new(5);
    let patient = Address::new(1);
    let token = Address::new(4);
    let custody = Address::new(20);
    let mut d = Distributor::new(custody);
    d.initialize(admin, token);
    let mut l = Ledger::new(token);
    l.mint(custody, 1000);

    d.reward_patient(&mut l, admin, patient, 150);
    assert_eq!(l.balance_of(custody), 850);
    assert_eq!(l.balance_of(patient), 150);

    d.reward_patient(&mut l, admin, patient, 1);
    assert_eq!(l.balance_of(custody), 849);
    assert_eq!(l.balance_of(patient), 151);

    let log = d.events();
    assert_eq!(log.len(), 2);
    assert_eq!(log[0], RewardEvent { admin, patient, amount: 150 });
    assert_eq!(log[1], RewardEvent { admin, patient, amount: 1 });
}
