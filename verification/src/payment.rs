use vstd::prelude::*;
use crate::address::Address;
use crate::ledger::{Ledger, can_transfer, transfer_effect};

verus! {

/// Lifecycle of one invoice. `Paid` and `Cancelled` are final.
#[derive(Clone, Copy, PartialEq, Eq, Structural, Debug)]
pub enum InvoiceStatus {
    Unpaid,
    Paid,
    Cancelled,
}

/// One raised invoice: who owes, for which service, how much, in which token.
#[derive(Clone, Debug, Eq, PartialEq)]
pub struct Invoice {
    pub id: u64,
    pub patient: Address,
    pub service_id: String,
    pub amount: i128,
    pub token: Address,
    pub status: InvoiceStatus,
}

/// Why a per-service payment operation was rejected.
#[derive(Clone, Copy, PartialEq, Eq, Structural, Debug)]
pub enum Error {
    NotInitialized,
    AlreadyInitialized,
    InvoiceNotFound,
    NotAdmin,
    NotPatient,
    InvoiceNotPayable,
}

/// The keys under which the host persists the contract's record.
/// `initialize` writes all of them at once, so each is present exactly when
/// setup happened.
#[derive(Clone, Copy, PartialEq, Eq, Structural, Debug)]
pub enum DataKey {
    Admin,
    Invoices,
    NextInvoiceId,
}

/// One record of the invoice notifications, emitted after each successful
/// mutating call.
#[derive(Clone, Copy, PartialEq, Eq, Structural, Debug)]
pub enum PaymentEvent {
    InvoiceCreated { admin: Address, invoice_id: u64, patient: Address, amount: i128 },
    InvoicePaid { patient: Address, invoice_id: u64 },
    InvoiceCancelled { admin: Address, invoice_id: u64 },
}

/// The per-service payment contract: a single admin raises invoices, patients
/// pay them into the admin's account, and the admin may cancel unpaid ones.
/// Invoice ids are handed out sequentially from zero.
pub struct PerServicePaymentContract {
    admin: Option<Address>,
    invoices: Vec<Invoice>,
    next_invoice_id: u64,
    events: Vec<PaymentEvent>,
}

impl PerServicePaymentContract {
    /// The configured admin, once initialized.
    pub closed spec fn spec_admin(&self) -> Option<Address> {
        self.admin
    }

    /// All raised invoices, in creation order; the invoice with id `k` sits
    /// at position `k`.
    pub closed spec fn spec_invoices(&self) -> Seq<Invoice> {
        self.invoices@
    }

    /// The id the next created invoice will get.
    pub closed spec fn spec_next_id(&self) -> u64 {
        self.next_invoice_id
    }

    /// All invoice notifications emitted so far, oldest first.
    pub closed spec fn spec_events(&self) -> Seq<PaymentEvent> {
        self.events@
    }

    /// The invoice registered under `invoice_id`, if any.
    pub open spec fn spec_invoice(&self, invoice_id: u64) -> Option<Invoice> {
        if invoice_id < self.spec_invoices().len() {
            Some(self.spec_invoices()[invoice_id as int])
        } else {
            None
        }
    }

    /// Ids are dense and positional, amounts are positive, and nothing exists
    /// before initialization.
    pub open spec fn wf(&self) -> bool {
        &&& self.spec_next_id() == self.spec_invoices().len()
        &&& forall|k: int| 0 <= k < self.spec_invoices().len()
            ==> (#[trigger] self.spec_invoices()[k]).id == k
                && self.spec_invoices()[k].amount > 0
        &&& self.spec_admin() is None ==> self.spec_invoices().len() == 0
    }

    /// A deployed, not yet initialized contract.
    pub fn new() -> (r: PerServicePaymentContract)
        ensures
            r.wf(),
            r.spec_admin() is None,
            r.spec_invoices() == Seq::<Invoice>::empty(),
            r.spec_events() == Seq::<PaymentEvent>::empty(),
    {
        PerServicePaymentContract {
            admin: None,
            invoices: Vec::new(),
            next_invoice_id: 0,
            events: Vec::new(),
        }
    }

    pub fn admin(&self) -> (r: Option<Address>)
        ensures
            r == self.spec_admin(),
    {
        self.admin
    }

    /// The id the next created invoice will get.
    pub fn next_invoice_id(&self) -> (r: u64)
        ensures
            r == self.spec_next_id(),
    {
        self.next_invoice_id
    }

    /// The emitted invoice notifications, oldest first.
    pub fn events(&self) -> (r: &Vec<PaymentEvent>)
        ensures
            r@ == self.spec_events(),
    {
        &self.events
    }

    /// Whether the host store holds a value under `key`. `initialize` writes
    /// every key at once, so each is present exactly when setup happened.
    pub fn has_entry(&self, key: DataKey) -> (r: bool)
        ensures
            r == (self.spec_admin() is Some),
    {
        match key {
            DataKey::Admin | DataKey::Invoices | DataKey::NextInvoiceId => self.admin.is_some(),
        }
    }

    /// One-time setup of the admin; fails with `AlreadyInitialized` on any
    /// later call and then changes nothing.
    pub fn initialize(&mut self, admin: Address) -> (r: Result<(), Error>)
        requires
            old(self).wf(),
        ensures
            final(self).wf(),
            final(self).spec_invoices() == old(self).spec_invoices(),
            final(self).spec_next_id() == old(self).spec_next_id(),
            final(self).spec_events() == old(self).spec_events(),
            old(self).spec_admin() is Some ==> r == Err::<(), Error>(Error::AlreadyInitialized)
                && final(self).spec_admin() == old(self).spec_admin(),
            old(self).spec_admin() is None ==> r == Ok::<(), Error>(())
                && final(self).spec_admin() == Some(admin),
    {
        if self.has_entry(DataKey::Admin) {
            return Err(Error::AlreadyInitialized);
        }
        self.admin = Some(admin);
        Ok(())
    }

    /// Raises a new invoice for `patient` and returns its id. Only the admin
    /// may call it, with a positive amount; the host aborts outright on an
    /// unauthorized caller or a non-positive amount, so those inputs are
    /// excluded up front.
    pub fn create_invoice(
        &mut self,
        caller: Address,
        patient: Address,
        service_id: String,
        amount: i128,
        token: Address,
    ) -> (r: Result<u64, Error>)
        requires
            old(self).wf(),
            old(self).spec_admin() matches Some(a) ==> caller == a && amount > 0
                && old(self).spec_invoices().len() < u64::MAX,
        ensures
            final(self).wf(),
            final(self).spec_admin() == old(self).spec_admin(),
            old(self).spec_admin() is None ==> r == Err::<u64, Error>(Error::NotInitialized)
                && final(self).spec_invoices() == old(self).spec_invoices()
                && final(self).spec_next_id() == old(self).spec_next_id()
                && final(self).spec_events() == old(self).spec_events(),
            old(self).spec_admin() matches Some(a) ==> {
                &&& r == Ok::<u64, Error>(old(self).spec_next_id())
                &&& final(self).spec_invoices() == old(self).spec_invoices().push(Invoice {
                    id: old(self).spec_next_id(),
                    patient,
                    service_id,
                    amount,
                    token,
                    status: InvoiceStatus::Unpaid,
                })
                &&& final(self).spec_next_id() == old(self).spec_next_id() + 1
                &&& final(self).spec_events() == old(self).spec_events().push(
                    PaymentEvent::InvoiceCreated {
                        admin: a,
                        invoice_id: old(self).spec_next_id(),
                        patient,
                        amount,
                    },
                )
            },
    {
        let clinic = match self.admin {
            Some(a) => a,
            None => {
                return Err(Error::NotInitialized);
            },
        };
        let invoice_id: u64 = self.next_invoice_id;
        self.invoices.push(Invoice {
            id: invoice_id,
            patient,
            service_id,
            amount,
            token,
            status: InvoiceStatus::Unpaid,
        });
        self.next_invoice_id = invoice_id + 1;
        self.events.push(PaymentEvent::InvoiceCreated { admin: clinic, invoice_id, patient, amount });
        Ok(invoice_id)
    }

    /// Pays an unpaid invoice: moves its amount from the owing patient to the
    /// admin's account, marks it `Paid` and emits the notification. The
    /// authenticated caller is the paying patient. The host aborts the call
    /// outright when the token transfer itself cannot go through, so the
    /// ledger handed in must cover it.
    pub fn pay_invoice(&mut self, ledger: &mut Ledger, patient: Address, invoice_id: u64) -> (r: Result<(), Error>)
        requires
            old(self).wf(),
            old(ledger).wf(),
            old(self).spec_admin() matches Some(clinic)
                ==> (old(self).spec_invoice(invoice_id) matches Some(inv)
                    ==> (inv.patient == patient && inv.status is Unpaid
                        ==> inv.token == old(ledger).spec_token()
                            && can_transfer(old(ledger).balances(), patient, clinic, inv.amount as int))),
        ensures
            final(self).wf(),
            final(ledger).wf(),
            final(self).spec_admin() == old(self).spec_admin(),
            final(self).spec_next_id() == old(self).spec_next_id(),
            final(ledger).spec_token() == old(ledger).spec_token(),
            old(self).spec_admin() is None ==> r == Err::<(), Error>(Error::NotInitialized),
            old(self).spec_admin() is Some && old(self).spec_invoice(invoice_id) is None
                ==> r == Err::<(), Error>(Error::InvoiceNotFound),
            old(self).spec_admin() matches Some(clinic)
                ==> (old(self).spec_invoice(invoice_id) matches Some(inv) ==> {
                    &&& inv.patient != patient ==> r == Err::<(), Error>(Error::NotPatient)
                    &&& inv.patient == patient && inv.status !is Unpaid
                        ==> r == Err::<(), Error>(Error::InvoiceNotPayable)
                    &&& inv.patient == patient && inv.status is Unpaid ==> {
                        &&& r == Ok::<(), Error>(())
                        &&& final(self).spec_invoices() == old(self).spec_invoices().update(
                            invoice_id as int,
                            Invoice { status: InvoiceStatus::Paid, ..inv },
                        )
                        &&& final(self).spec_events() == old(self).spec_events().push(
                            PaymentEvent::InvoicePaid { patient, invoice_id },
                        )
                        &&& forall|a: Address| final(ledger).spec_balance(a) == transfer_effect(
                            old(ledger).balances(),
                            patient,
                            clinic,
                            inv.amount as int,
                        )[a]
                    }
                }),
            r is Err ==> final(self).spec_invoices() == old(self).spec_invoices()
                && final(self).spec_events() == old(self).spec_events()
                && (forall|a: Address| final(ledger).spec_balance(a) == old(ledger).spec_balance(a)),
    {
        let clinic = match self.admin {
            Some(a) => a,
            None => {
                return Err(Error::NotInitialized);
            },
        };
        if invoice_id >= self.invoices.len() as u64 {
            return Err(Error::InvoiceNotFound);
        }
        let idx: usize = invoice_id as usize;
        if self.invoices[idx].patient != patient {
            return Err(Error::NotPatient);
        }
        let is_unpaid = match self.invoices[idx].status {
            InvoiceStatus::Unpaid => true,
            InvoiceStatus::Paid => false,
            InvoiceStatus::Cancelled => false,
        };
        if !is_unpaid {
            return Err(Error::InvoiceNotPayable);
        }
        let amount: i128 = self.invoices[idx].amount;
        match ledger.transfer(patient, clinic, amount) {
            Ok(()) => {},
            Err(_) => {
                assert(false);
            },
        }
        let invoice_ref = &mut self.invoices[idx];
        invoice_ref.status = InvoiceStatus::Paid;
        self.events.push(PaymentEvent::InvoicePaid { patient, invoice_id });
        Ok(())
    }

    /// Cancels an unpaid invoice so it can no longer be paid. Only the admin
    /// may call it; the host aborts outright on an unauthorized caller, so
    /// that input is excluded up front.
    pub fn cancel_invoice(&mut self, caller: Address, invoice_id: u64) -> (r: Result<(), Error>)
        requires
            old(self).wf(),
            old(self).spec_admin() matches Some(a) ==> caller == a,
        ensures
            final(self).wf(),
            final(self).spec_admin() == old(self).spec_admin(),
            final(self).spec_next_id() == old(self).spec_next_id(),
            old(self).spec_admin() is None ==> r == Err::<(), Error>(Error::NotInitialized),
            old(self).spec_admin() is Some && old(self).spec_invoice(invoice_id) is None
                ==> r == Err::<(), Error>(Error::InvoiceNotFound),
            old(self).spec_admin() matches Some(a)
                ==> (old(self).spec_invoice(invoice_id) matches Some(inv) ==> {
                    &&& inv.status !is Unpaid ==> r == Err::<(), Error>(Error::InvoiceNotPayable)
                    &&& inv.status is Unpaid ==> {
                        &&& r == Ok::<(), Error>(())
                        &&& final(self).spec_invoices() == old(self).spec_invoices().update(
                            invoice_id as int,
                            Invoice { status: InvoiceStatus::Cancelled, ..inv },
                        )
                        &&& final(self).spec_events() == old(self).spec_events().push(
                            PaymentEvent::InvoiceCancelled { admin: a, invoice_id },
                        )
                    }
                }),
            r is Err ==> final(self).spec_invoices() == old(self).spec_invoices()
                && final(self).spec_events() == old(self).spec_events(),
    {
        let clinic = match self.admin {
            Some(a) => a,
            None => {
                return Err(Error::NotInitialized);
            },
        };
        if invoice_id >= self.invoices.len() as u64 {
            return Err(Error::InvoiceNotFound);
        }
        let idx: usize = invoice_id as usize;
        let is_unpaid = match self.invoices[idx].status {
            InvoiceStatus::Unpaid => true,
            InvoiceStatus::Paid => false,
            InvoiceStatus::Cancelled => false,
        };
        if !is_unpaid {
            return Err(Error::InvoiceNotPayable);
        }
        let invoice_ref = &mut self.invoices[idx];
        invoice_ref.status = InvoiceStatus::Cancelled;
        self.events.push(PaymentEvent::InvoiceCancelled { admin: clinic, invoice_id });
        Ok(())
    }

    /// Looks an invoice up by id, readable by anyone without authorization.
    pub fn get_invoice(&self, invoice_id: u64) -> (r: Result<&Invoice, Error>)
        ensures
            self.spec_admin() is None ==> (r matches Err(e) && e == Error::NotInitialized),
            self.spec_admin() is Some && self.spec_invoice(invoice_id) is None
                ==> (r matches Err(e) && e == Error::InvoiceNotFound),
            self.spec_admin() is Some ==> (self.spec_invoice(invoice_id) matches Some(inv)
                ==> r matches Ok(found) && *found == inv),
    {
        if self.admin.is_none() {
            return Err(Error::NotInitialized);
        }
        if invoice_id >= self.invoices.len() as u64 {
            return Err(Error::InvoiceNotFound);
        }
        let idx: usize = invoice_id as usize;
        Ok(&self.invoices[idx])
    }
}

} // verus!
