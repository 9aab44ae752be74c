//! Addresses and payment records are values: two with the same content are the
//! same entity. Resolving one looks for a stored row with exactly that content and
//! hands out its identifier, and stores a new row only where none is found.
//! Registration inserts without looking.

use vstd::prelude::*;
use vstd::string::*;
use crate::db::error::StorageError;
use crate::db::expiry::expiry_text;
use crate::db::search::{first_from, first_index, lemma_first_from, lemma_first_index_is};
use crate::db::store::{
    address_number,
    lemma_numbered_push,
    payment_number,
    AddressRow,
    PaymentInfoRow,
    Store,
    Tables,
};
use crate::schema::entities::PostgresInt;
use crate::schema::no_id::{Address, PaymentInfo};

verus! {

/// The condition "this row holds exactly the given address".
pub open spec fn is_address(address: Address) -> spec_fn(AddressRow) -> bool {
    |row: AddressRow| row.address.same_as(address)
}

/// Whether a row holds exactly the given payment record, billed to the address
/// with the given identifier.
pub open spec fn same_payment(row: PaymentInfoRow, payment_info: PaymentInfo, billing_address_id: i32) -> bool {
    &&& row.name_on_card@ == payment_info.name_on_card@
    &&& row.expiry@ == expiry_text(payment_info.expiry.spec_month(), payment_info.expiry.spec_year())
    &&& row.card_number@ == payment_info.card_number@
    &&& row.cvv@ == payment_info.cvv@
    &&& row.billing_address_id == billing_address_id
}

/// The condition "this row holds exactly the given payment record".
pub open spec fn is_payment(payment_info: PaymentInfo, billing_address_id: i32) -> spec_fn(
    PaymentInfoRow,
) -> bool {
    |row: PaymentInfoRow| same_payment(row, payment_info, billing_address_id)
}

/// The row that stores a payment record under an identifier.
pub open spec fn payment_row_of(row: PaymentInfoRow, id: i32, payment_info: PaymentInfo, billing_address_id: i32) -> bool {
    &&& row.payment_info_id == id
    &&& same_payment(row, payment_info, billing_address_id)
}

impl Tables {
    /// The identifier of the first stored address with exactly this content.
    pub open spec fn find_address(self, address: Address) -> Option<i32> {
        let at = first_index(self.addresses, is_address(address));
        if at < self.addresses.len() {
            Some(self.addresses[at].address_id)
        } else {
            None
        }
    }

    /// What storing an address does: it is appended under the next identifier. A
    /// full table is a storage error.
    pub open spec fn insert_address(self, address: Address) -> (Tables, Result<i32, StorageError>) {
        if self.addresses.len() >= i32::MAX {
            (self, Err(StorageError::OutOfRange))
        } else {
            let address_id = (self.addresses.len() + 1) as i32;
            (
                Tables { addresses: self.addresses.push(AddressRow { address_id, address }), ..self },
                Ok(address_id),
            )
        }
    }

    /// What resolving an address does: the identifier of the stored row with this
    /// content where there is one, and a new row otherwise.
    pub open spec fn resolve_address(self, address: Address) -> (Tables, Result<i32, StorageError>) {
        match self.find_address(address) {
            Some(address_id) => (self, Ok(address_id)),
            None => self.insert_address(address),
        }
    }

    /// The identifier of the first stored payment record with exactly this content
    /// and billing address.
    pub open spec fn find_payment_row(self, payment_info: PaymentInfo, billing_address_id: i32) -> Option<i32> {
        let at = first_index(self.payment_infos, is_payment(payment_info, billing_address_id));
        if at < self.payment_infos.len() {
            Some(self.payment_infos[at].payment_info_id)
        } else {
            None
        }
    }

    /// Whether these tables are `before` with one payment row more, which stores the
    /// given record under the next identifier.
    pub open spec fn has_new_payment_row(
        self,
        before: Tables,
        payment_info: PaymentInfo,
        billing_address_id: i32,
    ) -> bool {
        &&& self == (Tables { payment_infos: self.payment_infos, ..before })
        &&& self.payment_infos.len() == before.payment_infos.len() + 1
        &&& self.payment_infos.drop_last() == before.payment_infos
        &&& payment_row_of(
            self.payment_infos.last(),
            self.payment_infos.len() as i32,
            payment_info,
            billing_address_id,
        )
    }

    /// The identifier of the first stored payment record with this content whose
    /// billing address is a stored address with the record's billing content.
    pub open spec fn find_payment_info(self, payment_info: PaymentInfo) -> Option<i32> {
        match self.find_address(payment_info.billing_address) {
            Some(billing_address_id) => self.find_payment_row(payment_info, billing_address_id),
            None => None,
        }
    }
}

/// What resolving a payment record comes to, but for the text of a row that is
/// stored anew.
pub struct PaymentPlan {
    /// The address table afterwards.
    pub addresses: Seq<AddressRow>,
    /// The billing address of the payment row that is stored, where one is stored.
    pub new_row_billed_to: Option<i32>,
    /// The identifier handed out, or the failure.
    pub result: Result<i32, StorageError>,
}

impl Tables {
    /// What resolving a payment record comes to. The billing address is resolved
    /// first. Then the stored record with the same content and that billing address
    /// gives the identifier; where there is none, a row is stored under the next
    /// identifier. An address row that was stored stays, whatever comes after.
    pub open spec fn plan_payment(self, payment_info: PaymentInfo) -> PaymentPlan {
        match self.resolve_address(payment_info.billing_address) {
            (_, Err(e)) => PaymentPlan {
                addresses: self.addresses,
                new_row_billed_to: None,
                result: Err(e),
            },
            (with_address, Ok(billing_address_id)) => match with_address.find_payment_row(
                payment_info,
                billing_address_id,
            ) {
                Some(id) => PaymentPlan {
                    addresses: with_address.addresses,
                    new_row_billed_to: None,
                    result: Ok(id),
                },
                None => if self.payment_infos.len() >= i32::MAX {
                    PaymentPlan {
                        addresses: with_address.addresses,
                        new_row_billed_to: None,
                        result: Err(StorageError::OutOfRange),
                    }
                } else {
                    PaymentPlan {
                        addresses: with_address.addresses,
                        new_row_billed_to: Some(billing_address_id),
                        result: Ok((self.payment_infos.len() + 1) as i32),
                    }
                },
            },
        }
    }

    /// Whether `after` is what these tables become when a payment record is resolved
    /// with the result `r`: the plan's address table, the plan's result, a new last
    /// payment row with the record's content where the plan stores one, and nothing
    /// else changed.
    pub open spec fn payment_resolved(
        self,
        after: Tables,
        payment_info: PaymentInfo,
        r: Result<i32, StorageError>,
    ) -> bool {
        let plan = self.plan_payment(payment_info);
        &&& r == plan.result
        &&& after == (Tables {
            addresses: plan.addresses,
            payment_infos: after.payment_infos,
            ..self
        })
        &&& match plan.new_row_billed_to {
            Some(billing_address_id) => {
                &&& after.payment_infos.len() == self.payment_infos.len() + 1
                &&& after.payment_infos.drop_last() == self.payment_infos
                &&& payment_row_of(
                    after.payment_infos.last(),
                    after.payment_infos.len() as i32,
                    payment_info,
                    billing_address_id,
                )
            },
            None => after.payment_infos == self.payment_infos,
        }
    }
}

/// Two conditions that agree on every row find the same first row.
pub proof fn lemma_first_from_agree<T>(
    rows: Seq<T>,
    p: spec_fn(T) -> bool,
    q: spec_fn(T) -> bool,
    from: int,
)
    requires
        0 <= from <= rows.len(),
        forall|i: int| 0 <= i < rows.len() ==> p(#[trigger] rows[i]) == q(rows[i]),
    ensures
        first_from(rows, p, from) == first_from(rows, q, from),
    decreases rows.len() - from,
{
    if from < rows.len() && !p(rows[from]) {
        lemma_first_from_agree(rows, p, q, from + 1);
    }
}

/// Dedup idempotence: once an address has been resolved, resolving an address
/// with the same three fields gives the same identifier and stores nothing.
pub proof fn lemma_resolve_address_twice(t: Tables, first: Address, second: Address)
    requires
        t.wf(),
        first.same_as(second),
        t.resolve_address(first).1 is Ok,
    ensures
        t.resolve_address(first).0.wf(),
        t.resolve_address(first).0.resolve_address(second) == t.resolve_address(first),
{
    let (after, id) = t.resolve_address(first);
    let p = is_address(first);
    let q = is_address(second);
    lemma_first_from(t.addresses, p, 0);
    match t.find_address(first) {
        Some(_) => {
            lemma_first_from_agree(t.addresses, p, q, 0);
        },
        None => {
            let at = t.addresses.len() as int;
            assert(q(after.addresses[at]));
            assert forall|i: int| 0 <= i < at implies !q(#[trigger] after.addresses[i]) by {
                assert(after.addresses[i] == t.addresses[i]);
                assert(!p(t.addresses[i]));
            }
            lemma_first_index_is(after.addresses, q, at);
        },
    }
}

/// Looks for a stored address with exactly this content.
pub fn find_address(store: &Store, address: &Address) -> (r: Result<Option<PostgresInt>, StorageError>)
    ensures
        r == Ok::<Option<PostgresInt>, StorageError>(store@.find_address(*address)),
{
    let mut i: usize = 0;
    while i < store.addresses.len()
        invariant
            i <= store.addresses.len(),
            first_index(store.addresses@, is_address(*address)) == first_from(
                store.addresses@,
                is_address(*address),
                i as int,
            ),
        decreases store.addresses.len() - i,
    {
        if store.addresses[i].address.matches(address) {
            return Ok(Some(store.addresses[i].address_id));
        }
        i = i + 1;
    }
    Ok(None)
}

/// Stores an address without looking for one with the same content, and returns
/// the identifier of the new row.
pub fn try_add_address(store: &mut Store, address: Address) -> (r: Result<PostgresInt, StorageError>)
    requires
        old(store)@.wf(),
    ensures
        (final(store)@, r) == old(store)@.insert_address(address),
        final(store)@.wf(),
{
    if store.addresses.len() >= i32::MAX as usize {
        return Err(StorageError::OutOfRange);
    }
    let address_id = (store.addresses.len() + 1) as i32;
    proof {
        lemma_numbered_push(store@.addresses, address_number(), AddressRow { address_id, address });
    }
    store.addresses.push(AddressRow { address_id, address });
    Ok(address_id)
}

/// Resolves an address to an identifier: that of the stored address with the same
/// content where there is one, otherwise that of a row stored now.
pub fn get_or_insert_address(store: &mut Store, address: Address) -> (r: Result<
    PostgresInt,
    StorageError,
>)
    requires
        old(store)@.wf(),
    ensures
        (final(store)@, r) == old(store)@.resolve_address(address),
        final(store)@.wf(),
        r matches Ok(id) ==> final(store)@.find_address(address) == Some(id),
{
    proof {
        if old(store)@.resolve_address(address).1 is Ok {
            lemma_resolve_address_twice(old(store)@, address, address);
        }
    }
    match find_address(store, &address) {
        Ok(Some(address_id)) => Ok(address_id),
        Ok(None) => try_add_address(store, address),
        Err(e) => Err(e),
    }
}

/// Looks for a stored payment record with this content, billed to the address with
/// the given identifier.
fn find_payment_row(store: &Store, payment_info: &PaymentInfo, billing_address_id: i32) -> (r:
    Option<PostgresInt>)
    ensures
        r == store@.find_payment_row(*payment_info, billing_address_id),
{
    let expiry = payment_info.expiry.to_string();
    let mut i: usize = 0;
    while i < store.payment_infos.len()
        invariant
            i <= store.payment_infos.len(),
            expiry@ == expiry_text(
                payment_info.expiry.spec_month(),
                payment_info.expiry.spec_year(),
            ),
            first_index(store.payment_infos@, is_payment(*payment_info, billing_address_id))
                == first_from(
                store.payment_infos@,
                is_payment(*payment_info, billing_address_id),
                i as int,
            ),
        decreases store.payment_infos.len() - i,
    {
        let row = &store.payment_infos[i];
        if row.name_on_card == payment_info.name_on_card && row.expiry == expiry && row.card_number
            == payment_info.card_number && row.cvv == payment_info.cvv && row.billing_address_id
            == billing_address_id {
            return Some(row.payment_info_id);
        }
        i = i + 1;
    }
    None
}

/// Looks for a stored payment record with this content whose billing address is
/// stored with this content.
pub fn find_payment_info(store: &Store, payment_info: &PaymentInfo) -> (r: Result<
    Option<PostgresInt>,
    StorageError,
>)
    ensures
        r == Ok::<Option<PostgresInt>, StorageError>(store@.find_payment_info(*payment_info)),
{
    match find_address(store, &payment_info.billing_address) {
        Ok(Some(billing_address_id)) => Ok(
            find_payment_row(store, payment_info, billing_address_id),
        ),
        Ok(None) => Ok(None),
        Err(e) => Err(e),
    }
}

/// Stores a payment row billed to an address that is stored already.
fn add_payment_row(store: &mut Store, payment_info: PaymentInfo, billing_address_id: i32) -> (r:
    Result<PostgresInt, StorageError>)
    requires
        old(store)@.wf(),
    ensures
        final(store)@.wf(),
        match r {
            Ok(id) => final(store)@.has_new_payment_row(
                old(store)@,
                payment_info,
                billing_address_id,
            ) && id == final(store)@.payment_infos.len(),
            Err(e) => e == StorageError::OutOfRange && final(store)@ == old(store)@
                && old(store)@.payment_infos.len() >= i32::MAX,
        },
{
    if store.payment_infos.len() >= i32::MAX as usize {
        return Err(StorageError::OutOfRange);
    }
    let payment_info_id = (store.payment_infos.len() + 1) as i32;
    let expiry = payment_info.expiry.to_string();
    let PaymentInfo { name_on_card, expiry: _, card_number, cvv, billing_address: _ } = payment_info;
    let row = PaymentInfoRow {
        payment_info_id,
        name_on_card,
        expiry,
        card_number,
        cvv,
        billing_address_id,
    };
    proof {
        lemma_numbered_push(store@.payment_infos, payment_number(), row);
    }
    store.payment_infos.push(row);
    proof {
        assert(final(store)@.payment_infos.drop_last() =~= old(store)@.payment_infos);
    }
    Ok(payment_info_id)
}

/// Stores a payment record and its billing address without looking for rows with
/// the same content, and returns the identifier of the new payment row. The
/// address row is stored first, and stays where the payment row cannot be stored.
pub fn try_add_payment_info(store: &mut Store, payment_info: PaymentInfo) -> (r: Result<
    PostgresInt,
    StorageError,
>)
    requires
        old(store)@.wf(),
    ensures
        final(store)@.wf(),
        match old(store)@.insert_address(payment_info.billing_address) {
            (_, Err(e)) => r == Err::<PostgresInt, StorageError>(e) && final(store)@ == old(store)@,
            (with_address, Ok(billing_address_id)) => match r {
                Ok(id) => final(store)@.has_new_payment_row(
                    with_address,
                    payment_info,
                    billing_address_id,
                ) && id == final(store)@.payment_infos.len(),
                Err(e) => e == StorageError::OutOfRange && final(store)@ == with_address
                    && with_address.payment_infos.len() >= i32::MAX,
            },
        },
{
    let billing_address = payment_info.billing_address.duplicate();
    let billing_address_id = match try_add_address(store, billing_address) {
        Ok(id) => id,
        Err(e) => {
            return Err(e);
        },
    };
    add_payment_row(store, payment_info, billing_address_id)
}

/// Resolves a payment record to an identifier. The billing address is resolved
/// first; then the identifier is that of the stored record with the same content
/// and that billing address where there is one, otherwise that of a row stored
/// now.
pub fn get_or_insert_payment_info(store: &mut Store, payment_info: PaymentInfo) -> (r: Result<
    PostgresInt,
    StorageError,
>)
    requires
        old(store)@.wf(),
    ensures
        final(store)@.wf(),
        old(store)@.payment_resolved(final(store)@, payment_info, r),
{
    let billing_address = payment_info.billing_address.duplicate();
    let billing_address_id = match get_or_insert_address(store, billing_address) {
        Ok(id) => id,
        Err(e) => {
            return Err(e);
        },
    };
    match find_payment_row(store, &payment_info, billing_address_id) {
        Some(id) => Ok(id),
        None => add_payment_row(store, payment_info, billing_address_id),
    }
}

} // verus!
