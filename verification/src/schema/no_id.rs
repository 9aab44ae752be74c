//! Values that customers submit and the store deduplicates: they have no
//! identifier of their own until they are stored.

use vstd::prelude::*;
use vstd::string::*;
use crate::db::expiry::Expiry;

verus! {

/// A postal address.
#[derive(Clone, Debug, PartialEq, Eq)]
pub struct Address {
    pub street_address: String,
    pub postal_code: String,
    pub province: String,
}

impl Address {
    /// The address with the given three fields.
    pub fn new(street_address: &str, postal_code: &str, province: &str) -> (a: Address)
        ensures
            a.street_address@ == street_address@,
            a.postal_code@ == postal_code@,
            a.province@ == province@,
    {
        Address {
            street_address: street_address.to_owned(),
            postal_code: postal_code.to_owned(),
            province: province.to_owned(),
        }
    }

    /// Whether two addresses are the same entity: all three fields hold the same
    /// text.
    pub open spec fn same_as(self, other: Address) -> bool {
        &&& self.street_address@ == other.street_address@
        &&& self.postal_code@ == other.postal_code@
        &&& self.province@ == other.province@
    }

    /// Whether two addresses are the same entity.
    pub fn matches(&self, other: &Address) -> (r: bool)
        ensures
            r == self.same_as(*other),
    {
        self.street_address == other.street_address && self.postal_code == other.postal_code
            && self.province == other.province
    }

    /// A copy of this address.
    pub fn duplicate(&self) -> (a: Address)
        ensures
            a == *self,
    {
        Address {
            street_address: self.street_address.clone(),
            postal_code: self.postal_code.clone(),
            province: self.province.clone(),
        }
    }
}

/// A payment card and the address it is billed to.
#[derive(Clone, Debug, PartialEq, Eq)]
pub struct PaymentInfo {
    pub name_on_card: String,
    pub expiry: Expiry,
    pub card_number: String,
    pub cvv: String,
    pub billing_address: Address,
}

impl PaymentInfo {
    /// The payment record with the given fields.
    pub fn new(
        name_on_card: &str,
        expiry: Expiry,
        card_number: &str,
        cvv: &str,
        billing_address: Address,
    ) -> (p: PaymentInfo)
        ensures
            p.name_on_card@ == name_on_card@,
            p.expiry == expiry,
            p.card_number@ == card_number@,
            p.cvv@ == cvv@,
            p.billing_address == billing_address,
    {
        PaymentInfo {
            name_on_card: name_on_card.to_owned(),
            expiry,
            card_number: card_number.to_owned(),
            cvv: cvv.to_owned(),
            billing_address,
        }
    }

    /// A copy of this payment record.
    pub fn duplicate(&self) -> (p: PaymentInfo)
        ensures
            p == *self,
    {
        PaymentInfo {
            name_on_card: self.name_on_card.clone(),
            expiry: self.expiry,
            card_number: self.card_number.clone(),
            cvv: self.cvv.clone(),
            billing_address: self.billing_address.duplicate(),
        }
    }
}

} // verus!
