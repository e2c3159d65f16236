use vstd::prelude::*;

use crate::agreement::{AgreementView, RentalError, TransferView};
use crate::contract::{
    create_step, execute_step, pay_step, refund_step, terminate_step, ContractView,
};

verus! {

/// Two successive accepted creations issue strictly increasing identifiers, each one above the
/// last identifier issued before it, and the first creation on an empty store issues 1.
pub proof fn law_create_ids_increase(
    s: ContractView,
    authorized1: bool,
    terms1: AgreementView,
    authorized2: bool,
    terms2: AgreementView,
)
    requires
        s.last_id < u64::MAX - 1,
    ensures
        ({
            let (s1, r1) = create_step(s, authorized1, terms1);
            let (s2, r2) = create_step(s1, authorized2, terms2);
            r1 is Ok && r2 is Ok ==> {
                &&& r1->Ok_0 == s.last_id + 1
                &&& s1.last_id == r1->Ok_0
                &&& r2->Ok_0 == r1->Ok_0 + 1
                &&& r1->Ok_0 < r2->Ok_0
                &&& s2.agreements.contains_key(r1->Ok_0)
                &&& s2.agreements.contains_key(r2->Ok_0)
            }
        }),
        s.last_id == 0 && create_step(s, authorized1, terms1).1 is Ok ==> create_step(
            s,
            authorized1,
            terms1,
        ).1 == Ok::<u64, RentalError>(1),
{
}

/// An authorized creation whose landlord is its tenant is refused with `InvalidArgument`
/// and leaves the store as it was.
pub proof fn law_create_same_parties_refused(s: ContractView, terms: AgreementView)
    requires
        terms.landlord == terms.tenant,
    ensures
        create_step(s, true, terms) == (s, Err::<u64, RentalError>(RentalError::InvalidArgument)),
{
}

/// An authorized execution is refused with `NotFound` on an absent record, and with
/// `InvalidState` on a record already executed or before its start date; the store stays.
pub proof fn law_execute_refusals(s: ContractView, id: u64, current_date: u64)
    ensures
        !s.agreements.contains_key(id) ==> execute_step(s, true, id, current_date) == (
            s,
            Err::<TransferView, RentalError>(RentalError::NotFound),
        ),
        s.agreements.contains_key(id) && s.agreements[id].executed ==> execute_step(
            s,
            true,
            id,
            current_date,
        ) == (s, Err::<TransferView, RentalError>(RentalError::InvalidState)),
        s.agreements.contains_key(id) && current_date < s.agreements[id].start_date
            ==> execute_step(s, true, id, current_date) == (
            s,
            Err::<TransferView, RentalError>(RentalError::InvalidState),
        ),
{
}

/// After an accepted execution the record is executed, its other values unchanged, and
/// exactly its rent is asked to move from its tenant to its landlord.
pub proof fn law_execute_effect(s: ContractView, authorized: bool, id: u64, current_date: u64)
    ensures
        ({
            let (s1, r) = execute_step(s, authorized, id, current_date);
            r is Ok ==> {
                &&& s.agreements.contains_key(id)
                &&& s1.agreements.contains_key(id)
                &&& s1.agreements[id] == AgreementView { executed: true, ..s.agreements[id] }
                &&& r->Ok_0 == TransferView {
                    from: s.agreements[id].tenant,
                    to: s.agreements[id].landlord,
                    amount: s.agreements[id].rent_amount,
                }
            }
        }),
{
}

/// An authorized rent payment on an executed record with an amount other than its rent is
/// refused with `InvalidArgument`, so no transfer is asked for.
pub proof fn law_pay_wrong_amount_refused(s: ContractView, id: u64, amount: i128)
    requires
        s.agreements.contains_key(id),
        s.agreements[id].executed,
        amount != s.agreements[id].rent_amount,
    ensures
        pay_step(s, true, id, amount) == Err::<TransferView, RentalError>(
            RentalError::InvalidArgument,
        ),
{
}

/// Termination of a stored record by anyone but its landlord is refused with `NotAuthorized`;
/// termination of an executed record by its authorized landlord removes it.
pub proof fn law_terminate(s: ContractView, caller: Seq<u8>, authorized: bool, id: u64)
    ensures
        s.agreements.contains_key(id) && caller != s.agreements[id].landlord ==> terminate_step(
            s,
            caller,
            authorized,
            id,
        ) == (s, Err::<(), RentalError>(RentalError::NotAuthorized)),
        authorized && s.agreements.contains_key(id) && caller == s.agreements[id].landlord
            && s.agreements[id].executed ==> {
            let (s1, r) = terminate_step(s, caller, authorized, id);
            r is Ok && !s1.agreements.contains_key(id)
        },
{
}

/// Once a record is terminated, every later authorized operation on its identifier is refused
/// with `NotFound`.
pub proof fn law_terminated_not_found(
    s: ContractView,
    caller: Seq<u8>,
    id: u64,
    other: Seq<u8>,
    current_date: u64,
    amount: i128,
)
    ensures
        ({
            let (s1, r) = terminate_step(s, caller, true, id);
            r is Ok ==> {
                &&& execute_step(s1, true, id, current_date).1 == Err::<TransferView, RentalError>(
                    RentalError::NotFound,
                )
                &&& pay_step(s1, true, id, amount) == Err::<TransferView, RentalError>(
                    RentalError::NotFound,
                )
                &&& terminate_step(s1, other, true, id).1 == Err::<(), RentalError>(
                    RentalError::NotFound,
                )
                &&& refund_step(s1, other, true, id, amount).1 == Err::<TransferView, RentalError>(
                    RentalError::NotFound,
                )
            }
        }),
{
}

/// A second deposit refund after an accepted one, by the same caller, is refused with
/// `InvalidState` and asks for no second transfer.
pub proof fn law_refund_once(
    s: ContractView,
    caller: Seq<u8>,
    authorized: bool,
    id: u64,
    amount1: i128,
    amount2: i128,
)
    ensures
        ({
            let (s1, r1) = refund_step(s, caller, authorized, id, amount1);
            r1 is Ok ==> refund_step(s1, caller, authorized, id, amount2) == (
                s1,
                Err::<TransferView, RentalError>(RentalError::InvalidState),
            )
        }),
{
}

/// Every stored identifier is one that was issued: between 1 and the last identifier issued.
pub open spec fn ids_issued(s: ContractView) -> bool {
    forall|k: u64| #[trigger] s.agreements.contains_key(k) ==> 1 <= k <= s.last_id
}

/// The lifecycle operations keep every stored identifier among those issued, so a creation
/// always stores its record under an identifier that no stored record holds.
pub proof fn law_ids_issued_kept(
    s: ContractView,
    caller: Seq<u8>,
    authorized: bool,
    terms: AgreementView,
    id: u64,
    current_date: u64,
    amount: i128,
)
    requires
        ids_issued(s),
        s.last_id < u64::MAX,
    ensures
        ids_issued(create_step(s, authorized, terms).0),
        create_step(s, authorized, terms).1 is Ok ==> !s.agreements.contains_key(
            create_step(s, authorized, terms).1->Ok_0,
        ),
        ids_issued(execute_step(s, authorized, id, current_date).0),
        ids_issued(terminate_step(s, caller, authorized, id).0),
        ids_issued(refund_step(s, caller, authorized, id, amount).0),
{
}

} // verus!
