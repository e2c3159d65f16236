use std::collections::HashMap;
use vstd::prelude::*;

use crate::account::Account;
use crate::agreement::{
    transfer_outcome, AgreementView, Caller, RentalAgreement, RentalError, Transfer, TransferView,
};

verus! {

broadcast use vstd::std_specs::hash::group_hash_axioms;

/// The store as plain values: the last identifier issued and the records by identifier.
pub struct ContractView {
    pub last_id: u64,
    pub agreements: Map<u64, AgreementView>,
}

/// The record that a creation with these terms stores: the terms, not yet executed,
/// no deposit held.
pub open spec fn fresh_record(terms: AgreementView) -> AgreementView {
    AgreementView { executed: false, deposit_paid: false, ..terms }
}

pub open spec fn create_error(authorized: bool, terms: AgreementView) -> Option<RentalError> {
    if !authorized {
        Some(RentalError::NotAuthorized)
    } else if terms.landlord == terms.tenant || terms.rent_amount <= 0 || terms.duration_months
        == 0 {
        Some(RentalError::InvalidArgument)
    } else {
        None
    }
}

/// Creation: on success the next identifier is issued and the fresh record stored under it.
pub open spec fn create_step(s: ContractView, authorized: bool, terms: AgreementView) -> (
    ContractView,
    Result<u64, RentalError>,
) {
    match create_error(authorized, terms) {
        Some(e) => (s, Err(e)),
        None => {
            let id = (s.last_id + 1) as u64;
            (
                ContractView { last_id: id, agreements: s.agreements.insert(id, fresh_record(terms)) },
                Ok(id),
            )
        },
    }
}

pub open spec fn execute_error(s: ContractView, authorized: bool, id: u64, current_date: u64) -> Option<
    RentalError,
> {
    if !authorized {
        Some(RentalError::NotAuthorized)
    } else if !s.agreements.contains_key(id) {
        Some(RentalError::NotFound)
    } else if s.agreements[id].executed || current_date < s.agreements[id].start_date {
        Some(RentalError::InvalidState)
    } else {
        None
    }
}

/// Execution: on success the record is marked executed and one rent moves from tenant to
/// landlord.
pub open spec fn execute_step(s: ContractView, authorized: bool, id: u64, current_date: u64) -> (
    ContractView,
    Result<TransferView, RentalError>,
) {
    match execute_error(s, authorized, id, current_date) {
        Some(e) => (s, Err(e)),
        None => {
            let a = s.agreements[id];
            (
                ContractView {
                    agreements: s.agreements.insert(id, AgreementView { executed: true, ..a }),
                    ..s
                },
                Ok(TransferView { from: a.tenant, to: a.landlord, amount: a.rent_amount }),
            )
        },
    }
}

pub open spec fn pay_error(s: ContractView, authorized: bool, id: u64, amount: i128) -> Option<
    RentalError,
> {
    if !authorized {
        Some(RentalError::NotAuthorized)
    } else if !s.agreements.contains_key(id) {
        Some(RentalError::NotFound)
    } else if !s.agreements[id].executed {
        Some(RentalError::InvalidState)
    } else if amount != s.agreements[id].rent_amount {
        Some(RentalError::InvalidArgument)
    } else {
        None
    }
}

/// Rent payment: the store is not changed; on success `amount` moves from tenant to landlord.
pub open spec fn pay_step(s: ContractView, authorized: bool, id: u64, amount: i128) -> Result<
    TransferView,
    RentalError,
> {
    match pay_error(s, authorized, id, amount) {
        Some(e) => Err(e),
        None => Ok(
            TransferView { from: s.agreements[id].tenant, to: s.agreements[id].landlord, amount },
        ),
    }
}

pub open spec fn terminate_error(s: ContractView, caller: Seq<u8>, authorized: bool, id: u64) -> Option<
    RentalError,
> {
    if !authorized {
        Some(RentalError::NotAuthorized)
    } else if !s.agreements.contains_key(id) {
        Some(RentalError::NotFound)
    } else if caller != s.agreements[id].landlord {
        Some(RentalError::NotAuthorized)
    } else if !s.agreements[id].executed {
        Some(RentalError::InvalidState)
    } else {
        None
    }
}

/// Termination: on success the record is removed.
pub open spec fn terminate_step(s: ContractView, caller: Seq<u8>, authorized: bool, id: u64) -> (
    ContractView,
    Result<(), RentalError>,
) {
    match terminate_error(s, caller, authorized, id) {
        Some(e) => (s, Err(e)),
        None => (ContractView { agreements: s.agreements.remove(id), ..s }, Ok(())),
    }
}

pub open spec fn refund_error(s: ContractView, caller: Seq<u8>, authorized: bool, id: u64) -> Option<
    RentalError,
> {
    if !authorized {
        Some(RentalError::NotAuthorized)
    } else if !s.agreements.contains_key(id) {
        Some(RentalError::NotFound)
    } else if caller != s.agreements[id].landlord {
        Some(RentalError::NotAuthorized)
    } else if !s.agreements[id].executed || !s.agreements[id].deposit_paid {
        Some(RentalError::InvalidState)
    } else {
        None
    }
}

/// Deposit refund: on success the deposit flag is cleared and `amount` moves from landlord to
/// tenant.
pub open spec fn refund_step(
    s: ContractView,
    caller: Seq<u8>,
    authorized: bool,
    id: u64,
    amount: i128,
) -> (ContractView, Result<TransferView, RentalError>) {
    match refund_error(s, caller, authorized, id) {
        Some(e) => (s, Err(e)),
        None => {
            let a = s.agreements[id];
            (
                ContractView {
                    agreements: s.agreements.insert(id, AgreementView { deposit_paid: false, ..a }),
                    ..s
                },
                Ok(TransferView { from: a.landlord, to: a.tenant, amount }),
            )
        },
    }
}

/// The agreement store and the lifecycle operations on it.
pub struct RentalContract {
    last_id: u64,
    agreements: HashMap<u64, RentalAgreement>,
}

impl View for RentalContract {
    type V = ContractView;

    closed spec fn view(&self) -> ContractView {
        ContractView {
            last_id: self.last_id,
            agreements: self.agreements@.map_values(|a: RentalAgreement| a@),
        }
    }
}

impl RentalContract {
    /// An empty store: no identifier issued yet, no records.
    pub fn new() -> (r: RentalContract)
        ensures
            r@.last_id == 0,
            r@.agreements == Map::<u64, AgreementView>::empty(),
    {
        let r = RentalContract { last_id: 0, agreements: HashMap::new() };
        assert(r@.agreements =~= Map::<u64, AgreementView>::empty());
        r
    }

    /// A store with no records whose last issued identifier is `last_id`, as when the counter
    /// is read back from persistent storage.
    pub fn with_last_id(last_id: u64) -> (r: RentalContract)
        ensures
            r@.last_id == last_id,
            r@.agreements == Map::<u64, AgreementView>::empty(),
    {
        let r = RentalContract { last_id, agreements: HashMap::new() };
        assert(r@.agreements =~= Map::<u64, AgreementView>::empty());
        r
    }

    /// The last identifier issued, 0 when none was.
    pub fn last_id(&self) -> (r: u64)
        ensures
            r == self@.last_id,
    {
        self.last_id
    }

    /// Issues a fresh identifier, one above the last one issued.
    pub fn next_id(&mut self) -> (r: u64)
        requires
            old(self)@.last_id < u64::MAX,
        ensures
            r == old(self)@.last_id + 1,
            final(self)@ == (ContractView { last_id: r, ..old(self)@ }),
    {
        self.last_id = self.last_id + 1;
        self.last_id
    }

    /// The record stored under `id`, if any.
    pub fn get(&self, id: u64) -> (r: Option<&RentalAgreement>)
        ensures
            match r {
                Some(a) => self@.agreements.contains_key(id) && a@ == self@.agreements[id],
                None => !self@.agreements.contains_key(id),
            },
    {
        self.agreements.get(&id)
    }

    /// Stores `agreement` under `id`, replacing what was there.
    pub fn put(&mut self, id: u64, agreement: RentalAgreement)
        ensures
            final(self)@ == (ContractView {
                agreements: old(self)@.agreements.insert(id, agreement@),
                ..old(self)@
            }),
    {
        let ghost v = agreement@;
        self.agreements.insert(id, agreement);
        assert(self@.agreements =~= old(self)@.agreements.insert(id, v));
    }

    /// Removes the record stored under `id`; absence is no error.
    pub fn delete(&mut self, id: u64)
        ensures
            final(self)@ == (ContractView { agreements: old(self)@.agreements.remove(id), ..old(self)@ }),
    {
        self.agreements.remove(&id);
        assert(self@.agreements =~= old(self)@.agreements.remove(id));
    }
    /// Creates an agreement between `landlord` and `tenant` and returns its identifier.
    /// The caller must be authorized, the two parties distinct, rent and duration positive.
    pub fn create_agreement(
        &mut self,
        caller: &Caller,
        property_address: Vec<u8>,
        landlord: Account,
        tenant: Account,
        rent_amount: i128,
        duration_months: u32,
        start_date: u64,
    ) -> (r: Result<u64, RentalError>)
        requires
            old(self)@.last_id < u64::MAX,
        ensures
            (final(self)@, r) == create_step(
                old(self)@,
                caller.authorized,
                AgreementView {
                    property_address: property_address@,
                    landlord: landlord@,
                    tenant: tenant@,
                    rent_amount,
                    duration_months,
                    start_date,
                    executed: false,
                    deposit_paid: false,
                },
            ),
    {
        if !caller.authorized {
            return Err(RentalError::NotAuthorized);
        }
        if landlord.same(&tenant) {
            return Err(RentalError::InvalidArgument);
        }
        if rent_amount <= 0 {
            return Err(RentalError::InvalidArgument);
        }
        if duration_months == 0 {
            return Err(RentalError::InvalidArgument);
        }
        let agreement_id = self.next_id();
        let agreement = RentalAgreement::from_parts(
            property_address,
            landlord,
            tenant,
            rent_amount,
            duration_months,
            start_date,
            false,
            false,
        );
        self.put(agreement_id, agreement);
        Ok(agreement_id)
    }

    /// Executes agreement `agreement_id` on `current_date`: marks it executed and asks for the
    /// first rent to move from tenant to landlord.
    pub fn execute_agreement(&mut self, caller: &Caller, agreement_id: u64, current_date: u64) -> (r:
        Result<Transfer, RentalError>)
        ensures
            (final(self)@, transfer_outcome(r)) == execute_step(
                old(self)@,
                caller.authorized,
                agreement_id,
                current_date,
            ),
    {
        if !caller.authorized {
            return Err(RentalError::NotAuthorized);
        }
        let agreement = match self.get(agreement_id) {
            Some(a) => a,
            None => return Err(RentalError::NotFound),
        };
        if agreement.executed() {
            return Err(RentalError::InvalidState);
        }
        if current_date < agreement.start_date() {
            return Err(RentalError::InvalidState);
        }
        let transfer = Transfer {
            from: agreement.tenant().duplicate(),
            to: agreement.landlord().duplicate(),
            amount: agreement.rent_amount(),
        };
        let ghost s0 = self@;
        if let Some(mut updated) = self.agreements.remove(&agreement_id) {
            updated.mark_executed();
            self.agreements.insert(agreement_id, updated);
            assert(self@.agreements =~= s0.agreements.insert(
                agreement_id,
                AgreementView { executed: true, ..s0.agreements[agreement_id] },
            ));
        }
        Ok(transfer)
    }

    /// Pays one rent on agreement `agreement_id`: asks for `amount` to move from tenant to
    /// landlord, and changes nothing stored.
    pub fn pay_rent(&self, caller: &Caller, agreement_id: u64, amount: i128) -> (r: Result<
        Transfer,
        RentalError,
    >)
        ensures
            transfer_outcome(r) == pay_step(self@, caller.authorized, agreement_id, amount),
    {
        if !caller.authorized {
            return Err(RentalError::NotAuthorized);
        }
        let agreement = match self.get(agreement_id) {
            Some(a) => a,
            None => return Err(RentalError::NotFound),
        };
        if !agreement.executed() {
            return Err(RentalError::InvalidState);
        }
        if amount != agreement.rent_amount() {
            return Err(RentalError::InvalidArgument);
        }
        Ok(
            Transfer {
                from: agreement.tenant().duplicate(),
                to: agreement.landlord().duplicate(),
                amount,
            },
        )
    }

    /// Terminates agreement `agreement_id` on the landlord's request: the record is removed.
    pub fn terminate_agreement(&mut self, caller: &Caller, agreement_id: u64) -> (r: Result<
        (),
        RentalError,
    >)
        ensures
            (final(self)@, r) == terminate_step(
                old(self)@,
                caller.account@,
                caller.authorized,
                agreement_id,
            ),
    {
        if !caller.authorized {
            return Err(RentalError::NotAuthorized);
        }
        let agreement = match self.get(agreement_id) {
            Some(a) => a,
            None => return Err(RentalError::NotFound),
        };
        if !caller.account.same(agreement.landlord()) {
            return Err(RentalError::NotAuthorized);
        }
        if !agreement.executed() {
            return Err(RentalError::InvalidState);
        }
        self.delete(agreement_id);
        Ok(())
    }

    /// Refunds the deposit of agreement `agreement_id` on the landlord's request: asks for
    /// `deposit_amount` to move from landlord to tenant and clears the deposit flag.
    pub fn refund_deposit(
        &mut self,
        caller: &Caller,
        agreement_id: u64,
        deposit_amount: i128,
    ) -> (r: Result<Transfer, RentalError>)
        ensures
            (final(self)@, transfer_outcome(r)) == refund_step(
                old(self)@,
                caller.account@,
                caller.authorized,
                agreement_id,
                deposit_amount,
            ),
    {
        if !caller.authorized {
            return Err(RentalError::NotAuthorized);
        }
        let agreement = match self.get(agreement_id) {
            Some(a) => a,
            None => return Err(RentalError::NotFound),
        };
        if !caller.account.same(agreement.landlord()) {
            return Err(RentalError::NotAuthorized);
        }
        if !agreement.executed() || !agreement.deposit_paid() {
            return Err(RentalError::InvalidState);
        }
        let transfer = Transfer {
            from: agreement.landlord().duplicate(),
            to: agreement.tenant().duplicate(),
            amount: deposit_amount,
        };
        let ghost s0 = self@;
        if let Some(mut updated) = self.agreements.remove(&agreement_id) {
            updated.clear_deposit();
            self.agreements.insert(agreement_id, updated);
            assert(self@.agreements =~= s0.agreements.insert(
                agreement_id,
                AgreementView { deposit_paid: false, ..s0.agreements[agreement_id] },
            ));
        }
        Ok(transfer)
    }
}

} // verus!
