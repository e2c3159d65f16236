use rental_agreement::account::Account;
use rental_agreement::agreement::{Caller, RentalAgreement, RentalError, Transfer};
use rental_agreement::contract::RentalContract;

fn account(name: &str) -> Account {
    Account::new(name.as_bytes().to_vec())
}

fn caller(name: &str) -> Caller {
    Caller { account: account(name), authorized: true }
}

fn unauthorized(name: &str) -> Caller {
    Caller { account: account(name), authorized: false }
}

fn create(c: &mut RentalContract, rent: i128, start: u64) -> Result<u64, RentalError> {
    c.create_agreement(
        &caller("L"),
        b"12 Main St".to_vec(),
        account("L"),
        account("T"),
        rent,
        12,
        start,
    )
}

fn assert_transfer(t: &Transfer, from: &str, to: &str, amount: i128) {
    assert_eq!(t.from.key, from.as_bytes().to_vec());
    assert_eq!(t.to.key, to.as_bytes().to_vec());
    assert_eq!(t.amount, amount);
}

#[test]
fn end_to_end_scenario() {
    let mut c = RentalContract::new();
    assert_eq!(create(&mut c, 1000, 1000), Ok(1));
    let t = c.execute_agreement(&caller("T"), 1, 1000).unwrap();
    assert_transfer(&t, "T", "L", 1000);
    assert!(c.get(1).unwrap().executed());
    let t = c.pay_rent(&caller("T"), 1, 1000).unwrap();
    assert_transfer(&t, "T", "L", 1000);
    assert!(c.get(1).unwrap().executed());
    assert!(!c.get(1).unwrap().deposit_paid());
    assert_eq!(c.terminate_agreement(&caller("L"), 1), Ok(()));
    assert!(c.get(1).is_none());
    assert_eq!(c.execute_agreement(&caller("T"), 1, 1000).err(), Some(RentalError::NotFound));
    assert_eq!(c.pay_rent(&caller("T"), 1, 1000).err(), Some(RentalError::NotFound));
    assert_eq!(c.terminate_agreement(&caller("L"), 1), Err(RentalError::NotFound));
    assert_eq!(c.refund_deposit(&caller("L"), 1, 500).err(), Some(RentalError::NotFound));
}

#[test]
fn create_ids_increase_from_one() {
    let mut c = RentalContract::new();
    assert_eq!(c.last_id(), 0);
    assert_eq!(create(&mut c, 1000, 1000), Ok(1));
    assert_eq!(create(&mut c, 2000, 5), Ok(2));
    assert_eq!(create(&mut c, 3000, 7), Ok(3));
    assert_eq!(c.last_id(), 3);
    let a = c.get(2).unwrap();
    assert_eq!(a.rent_amount(), 2000);
    assert_eq!(a.start_date(), 5);
    assert_eq!(a.duration_months(), 12);
    assert_eq!(a.property_address(), &b"12 Main St".to_vec());
    assert_eq!(a.landlord().key, b"L".to_vec());
    assert_eq!(a.tenant().key, b"T".to_vec());
    assert!(!a.executed());
    assert!(!a.deposit_paid());
}

#[test]
fn create_refused_ids_not_consumed() {
    let mut c = RentalContract::new();
    assert_eq!(create(&mut c, 0, 1000), Err(RentalError::InvalidArgument));
    assert_eq!(create(&mut c, 1000, 1000), Ok(1));
}

#[test]
fn create_same_parties_invalid() {
    let mut c = RentalContract::new();
    let r = c.create_agreement(&caller("L"), b"x".to_vec(), account("L"), account("L"), 1000, 12, 1000);
    assert_eq!(r, Err(RentalError::InvalidArgument));
    assert_eq!(c.last_id(), 0);
    assert!(c.get(1).is_none());
}

#[test]
fn create_bad_rent_or_duration_invalid() {
    let mut c = RentalContract::new();
    assert_eq!(create(&mut c, 0, 1000), Err(RentalError::InvalidArgument));
    assert_eq!(create(&mut c, -5, 1000), Err(RentalError::InvalidArgument));
    let r = c.create_agreement(&caller("L"), b"x".to_vec(), account("L"), account("T"), 1000, 0, 1000);
    assert_eq!(r, Err(RentalError::InvalidArgument));
    assert_eq!(c.last_id(), 0);
}

#[test]
fn create_unauthorized() {
    let mut c = RentalContract::new();
    let r = c.create_agreement(&unauthorized("L"), b"x".to_vec(), account("L"), account("T"), 1000, 12, 1000);
    assert_eq!(r, Err(RentalError::NotAuthorized));
    assert_eq!(c.last_id(), 0);
}

#[test]
fn execute_refusals() {
    let mut c = RentalContract::new();
    assert_eq!(c.execute_agreement(&caller("T"), 1, 1000).err(), Some(RentalError::NotFound));
    create(&mut c, 1000, 1000).unwrap();
    assert_eq!(c.execute_agreement(&caller("T"), 1, 999).err(), Some(RentalError::InvalidState));
    assert!(!c.get(1).unwrap().executed());
    assert_eq!(c.execute_agreement(&unauthorized("T"), 1, 1000).err(), Some(RentalError::NotAuthorized));
    assert!(c.execute_agreement(&caller("T"), 1, 2000).is_ok());
    assert_eq!(c.execute_agreement(&caller("T"), 1, 2000).err(), Some(RentalError::InvalidState));
}

#[test]
fn execute_by_any_authorized_caller() {
    let mut c = RentalContract::new();
    create(&mut c, 750, 10).unwrap();
    let t = c.execute_agreement(&caller("X"), 1, 10).unwrap();
    assert_transfer(&t, "T", "L", 750);
    assert!(c.get(1).unwrap().executed());
    assert_eq!(c.get(1).unwrap().rent_amount(), 750);
}

#[test]
fn pay_rent_refusals() {
    let mut c = RentalContract::new();
    create(&mut c, 1000, 1000).unwrap();
    assert_eq!(c.pay_rent(&caller("T"), 1, 1000).err(), Some(RentalError::InvalidState));
    c.execute_agreement(&caller("T"), 1, 1000).unwrap();
    assert_eq!(c.pay_rent(&caller("T"), 1, 999).err(), Some(RentalError::InvalidArgument));
    assert_eq!(c.pay_rent(&caller("T"), 1, 1001).err(), Some(RentalError::InvalidArgument));
    assert_eq!(c.pay_rent(&unauthorized("T"), 1, 1000).err(), Some(RentalError::NotAuthorized));
    assert_eq!(c.pay_rent(&caller("T"), 2, 1000).err(), Some(RentalError::NotFound));
}

#[test]
fn terminate_rules() {
    let mut c = RentalContract::new();
    create(&mut c, 1000, 1000).unwrap();
    assert_eq!(c.terminate_agreement(&caller("T"), 1), Err(RentalError::NotAuthorized));
    assert_eq!(c.terminate_agreement(&caller("L"), 1), Err(RentalError::InvalidState));
    c.execute_agreement(&caller("T"), 1, 1000).unwrap();
    assert_eq!(c.terminate_agreement(&caller("T"), 1), Err(RentalError::NotAuthorized));
    assert_eq!(c.terminate_agreement(&unauthorized("L"), 1), Err(RentalError::NotAuthorized));
    assert!(c.get(1).is_some());
    assert_eq!(c.terminate_agreement(&caller("L"), 1), Ok(()));
    assert!(c.get(1).is_none());
}

fn held_deposit(c: &mut RentalContract) {
    let a = RentalAgreement::from_parts(
        b"12 Main St".to_vec(),
        account("L"),
        account("T"),
        1000,
        12,
        1000,
        true,
        true,
    );
    c.put(1, a);
}

#[test]
fn refund_once_only() {
    let mut c = RentalContract::new();
    held_deposit(&mut c);
    let t = c.refund_deposit(&caller("L"), 1, 500).unwrap();
    assert_transfer(&t, "L", "T", 500);
    assert!(!c.get(1).unwrap().deposit_paid());
    assert!(c.get(1).unwrap().executed());
    assert_eq!(c.refund_deposit(&caller("L"), 1, 500).err(), Some(RentalError::InvalidState));
}

#[test]
fn refund_refusals() {
    let mut c = RentalContract::new();
    create(&mut c, 1000, 1000).unwrap();
    assert_eq!(c.refund_deposit(&caller("L"), 1, 500).err(), Some(RentalError::InvalidState));
    c.execute_agreement(&caller("T"), 1, 1000).unwrap();
    assert_eq!(c.refund_deposit(&caller("L"), 1, 500).err(), Some(RentalError::InvalidState));
    held_deposit(&mut c);
    assert_eq!(c.refund_deposit(&caller("T"), 1, 500).err(), Some(RentalError::NotAuthorized));
    assert_eq!(c.refund_deposit(&unauthorized("L"), 1, 500).err(), Some(RentalError::NotAuthorized));
    assert!(c.get(1).unwrap().deposit_paid());
}

#[test]
fn store_primitives() {
    let mut c = RentalContract::new();
    assert_eq!(c.next_id(), 1);
    assert_eq!(c.next_id(), 2);
    assert!(c.get(7).is_none());
    held_deposit(&mut c);
    assert!(c.get(1).is_some());
    c.delete(1);
    assert!(c.get(1).is_none());
    c.delete(1);
    assert_eq!(c.last_id(), 2);
    assert_eq!(create(&mut c, 1000, 1000), Ok(3));
}

#[test]
fn account_comparison() {
    assert!(account("GABC").same(&account("GABC")));
    assert!(!account("GABC").same(&account("GABD")));
    assert!(!account("GAB").same(&account("GABC")));
    let d = account("GXYZ").duplicate();
    assert_eq!(d.key, b"GXYZ".to_vec());
}
