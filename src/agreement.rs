use vstd::prelude::*;

use crate::account::Account;

verus! {

/// The key under which the store keeps the last identifier it issued.
#[derive(Clone, Copy, Debug, PartialEq, Eq, Structural)]
pub enum StorageKey {
    AgreementID,
}

/// Why an operation was refused. Every refusal leaves the store unchanged.
#[derive(Clone, Copy, Debug, PartialEq, Eq, Structural)]
pub enum RentalError {
    /// The required identity gave no valid proof, or is not the one the operation asks for.
    NotAuthorized,
    /// Landlord equal to tenant, a rent or duration of zero, or a payment of the wrong amount.
    InvalidArgument,
    /// No record is stored under the identifier.
    NotFound,
    /// The record is in a state from which the operation is not allowed.
    InvalidState,
    /// The host's transfer of value was rejected.
    TransferFailed,
}

/// The identity that submits an operation, with the host's verdict on its proof.
pub struct Caller {
    pub account: Account,
    pub authorized: bool,
}

/// A movement of `amount` from one account to another, to be carried out by the host
/// in the same atomic unit as the state change that asked for it.
pub struct Transfer {
    pub from: Account,
    pub to: Account,
    pub amount: i128,
}

/// The value of a transfer, with accounts as byte sequences.
pub struct TransferView {
    pub from: Seq<u8>,
    pub to: Seq<u8>,
    pub amount: i128,
}

/// The outcome of an operation that may ask for a transfer, as plain values.
pub open spec fn transfer_outcome(r: Result<Transfer, RentalError>) -> Result<TransferView, RentalError> {
    match r {
        Ok(t) => Ok(t@),
        Err(e) => Err(e),
    }
}

impl View for Transfer {
    type V = TransferView;

    open spec fn view(&self) -> TransferView {
        TransferView { from: self.from@, to: self.to@, amount: self.amount }
    }
}

/// A rental agreement between a landlord and a tenant.
pub struct RentalAgreement {
    property_address: Vec<u8>,
    landlord: Account,
    tenant: Account,
    rent_amount: i128,
    duration_months: u32,
    start_date: u64,
    executed: bool,
    deposit_paid: bool,
}

/// The value of a record, with accounts and text as byte sequences.
pub struct AgreementView {
    pub property_address: Seq<u8>,
    pub landlord: Seq<u8>,
    pub tenant: Seq<u8>,
    pub rent_amount: i128,
    pub duration_months: u32,
    pub start_date: u64,
    pub executed: bool,
    pub deposit_paid: bool,
}

impl View for RentalAgreement {
    type V = AgreementView;

    closed spec fn view(&self) -> AgreementView {
        AgreementView {
            property_address: self.property_address@,
            landlord: self.landlord@,
            tenant: self.tenant@,
            rent_amount: self.rent_amount,
            duration_months: self.duration_months,
            start_date: self.start_date,
            executed: self.executed,
            deposit_paid: self.deposit_paid,
        }
    }
}

impl RentalAgreement {
    /// A record holding exactly the given values.
    pub fn from_parts(
        property_address: Vec<u8>,
        landlord: Account,
        tenant: Account,
        rent_amount: i128,
        duration_months: u32,
        start_date: u64,
        executed: bool,
        deposit_paid: bool,
    ) -> (r: RentalAgreement)
        ensures
            r@ == (AgreementView {
                property_address: property_address@,
                landlord: landlord@,
                tenant: tenant@,
                rent_amount,
                duration_months,
                start_date,
                executed,
                deposit_paid,
            }),
    {
        RentalAgreement {
            property_address,
            landlord,
            tenant,
            rent_amount,
            duration_months,
            start_date,
            executed,
            deposit_paid,
        }
    }

    pub fn property_address(&self) -> (r: &Vec<u8>)
        ensures
            r@ == self@.property_address,
    {
        &self.property_address
    }

    pub fn landlord(&self) -> (r: &Account)
        ensures
            r@ == self@.landlord,
    {
        &self.landlord
    }

    pub fn tenant(&self) -> (r: &Account)
        ensures
            r@ == self@.tenant,
    {
        &self.tenant
    }

    pub fn rent_amount(&self) -> (r: i128)
        ensures
            r == self@.rent_amount,
    {
        self.rent_amount
    }

    pub fn duration_months(&self) -> (r: u32)
        ensures
            r == self@.duration_months,
    {
        self.duration_months
    }

    pub fn start_date(&self) -> (r: u64)
        ensures
            r == self@.start_date,
    {
        self.start_date
    }

    pub fn executed(&self) -> (r: bool)
        ensures
            r == self@.executed,
    {
        self.executed
    }

    pub fn deposit_paid(&self) -> (r: bool)
        ensures
            r == self@.deposit_paid,
    {
        self.deposit_paid
    }

    /// Sets the executed flag; every other value stays.
    pub fn mark_executed(&mut self)
        ensures
            final(self)@ == (AgreementView { executed: true, ..old(self)@ }),
    {
        self.executed = true;
    }

    /// Clears the deposit flag; every other value stays.
    pub fn clear_deposit(&mut self)
        ensures
            final(self)@ == (AgreementView { deposit_paid: false, ..old(self)@ }),
    {
        self.deposit_paid = false;
    }
}

} // verus!
