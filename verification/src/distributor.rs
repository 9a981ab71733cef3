use vstd::prelude::*;
use crate::address::Address;
use crate::ledger::{Ledger, can_transfer, transfer_effect};

verus! {

/// The keys under which the host persists the distributor's configuration.
/// `initialize` writes both at once, so each is present exactly when the
/// distributor was set up.
#[derive(Clone, Copy, PartialEq, Eq, Structural, Debug)]
pub enum DataKey {
    Admin,
    Token,
}

/// One record of the reward notifications, emitted after each payout.
#[derive(Clone, Copy, PartialEq, Eq, Structural, Debug)]
pub struct RewardEvent {
    pub admin: Address,
    pub patient: Address,
    pub amount: i128,
}

/// The reward distributor: a single admin pays token rewards to patients out
/// of the contract's own custody account. The host aborts the call outright
/// on a second initialization, an unauthorized caller, a non-positive amount
/// or a failed transfer, so those inputs are excluded up front.
pub struct Distributor {
    address: Address,
    admin: Option<Address>,
    token: Option<Address>,
    events: Vec<RewardEvent>,
}

impl Distributor {
    /// The contract's own custody account.
    pub closed spec fn spec_address(&self) -> Address {
        self.address
    }

    /// The configured admin, once initialized.
    pub closed spec fn spec_admin(&self) -> Option<Address> {
        self.admin
    }

    /// The configured token, once initialized.
    pub closed spec fn spec_token(&self) -> Option<Address> {
        self.token
    }

    /// All reward notifications emitted so far, oldest first.
    pub closed spec fn spec_events(&self) -> Seq<RewardEvent> {
        self.events@
    }

    /// Admin and token are configured together or not at all.
    pub open spec fn wf(&self) -> bool {
        self.spec_admin() is Some <==> self.spec_token() is Some
    }

    /// A deployed, not yet configured distributor with custody account
    /// `address`.
    pub fn new(address: Address) -> (r: Distributor)
        ensures
            r.wf(),
            r.spec_address() == address,
            r.spec_admin() is None,
            r.spec_events() == Seq::<RewardEvent>::empty(),
    {
        Distributor { address, admin: None, token: None, events: Vec::new() }
    }

    pub fn address(&self) -> (r: Address)
        ensures
            r == self.spec_address(),
    {
        self.address
    }

    pub fn admin(&self) -> (r: Option<Address>)
        ensures
            r == self.spec_admin(),
    {
        self.admin
    }

    pub fn token(&self) -> (r: Option<Address>)
        ensures
            r == self.spec_token(),
    {
        self.token
    }

    /// The emitted reward notifications, oldest first.
    pub fn events(&self) -> (r: &Vec<RewardEvent>)
        ensures
            r@ == self.spec_events(),
    {
        &self.events
    }

    /// Whether the host store holds a value under `key`. `initialize` writes
    /// both keys at once, so each is present exactly when setup happened.
    pub fn has_entry(&self, key: DataKey) -> (r: bool)
        requires
            self.wf(),
        ensures
            r == (self.spec_admin() is Some),
    {
        match key {
            DataKey::Admin | DataKey::Token => self.admin.is_some(),
        }
    }

    /// One-time setup of the admin and the token to pay rewards in.
    pub fn initialize(&mut self, admin: Address, token: Address)
        requires
            old(self).wf(),
            old(self).spec_admin() is None,
        ensures
            final(self).wf(),
            final(self).spec_address() == old(self).spec_address(),
            final(self).spec_admin() == Some(admin),
            final(self).spec_token() == Some(token),
            final(self).spec_events() == old(self).spec_events(),
    {
        self.admin = Some(admin);
        self.token = Some(token);
    }

    /// Pays `amount` of the configured token from the contract's custody to
    /// `patient` and emits the reward notification. Only the admin may call
    /// it, with a positive amount the custody account can cover.
    pub fn reward_patient(&mut self, ledger: &mut Ledger, caller: Address, patient: Address, amount: i128)
        requires
            old(self).wf(),
            old(ledger).wf(),
            old(self).spec_admin() == Some(caller),
            old(self).spec_token() == Some(old(ledger).spec_token()),
            amount > 0,
            can_transfer(old(ledger).balances(), old(self).spec_address(), patient, amount as int),
        ensures
            final(self).wf(),
            final(ledger).wf(),
            final(self).spec_address() == old(self).spec_address(),
            final(self).spec_admin() == old(self).spec_admin(),
            final(self).spec_token() == old(self).spec_token(),
            final(ledger).spec_token() == old(ledger).spec_token(),
            forall|a: Address| final(ledger).spec_balance(a) == transfer_effect(
                old(ledger).balances(),
                old(self).spec_address(),
                patient,
                amount as int,
            )[a],
            final(self).spec_events() == old(self).spec_events().push(
                RewardEvent { admin: caller, patient, amount },
            ),
    {
        let contract_address = self.address;
        match ledger.transfer(contract_address, patient, amount) {
            Ok(()) => {},
            Err(_) => {
                assert(false);
            },
        }
        self.events.push(RewardEvent { admin: caller, patient, amount });
    }
}

} // verus!
