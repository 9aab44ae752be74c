//! What queries put together out of several tables.

use vstd::prelude::*;
use vstd::string::*;
use crate::schema::entities::{Book, PostgresInt};
use crate::schema::no_id::{Address, PaymentInfo};

verus! {

/// A customer with the address and card it registered with, written out.
#[derive(Clone, Debug, PartialEq, Eq)]
pub struct Customer {
    pub name: String,
    pub email: String,
    pub street_address: String,
    pub postal_code: String,
    pub province: String,
    pub name_on_card: String,
    pub expiry: String,
    pub billing_street_address: String,
    pub billing_postal_code: String,
    pub billing_province: String,
}

impl Customer {
    /// Whether every field is the empty text.
    pub open spec fn is_blank(self) -> bool {
        &&& self.name@.len() == 0
        &&& self.email@.len() == 0
        &&& self.street_address@.len() == 0
        &&& self.postal_code@.len() == 0
        &&& self.province@.len() == 0
        &&& self.name_on_card@.len() == 0
        &&& self.expiry@.len() == 0
        &&& self.billing_street_address@.len() == 0
        &&& self.billing_postal_code@.len() == 0
        &&& self.billing_province@.len() == 0
    }
}

impl Default for Customer {
    fn default() -> (c: Customer)
        ensures
            c.is_blank(),
    {
        Customer {
            name: String::new(),
            email: String::new(),
            street_address: String::new(),
            postal_code: String::new(),
            province: String::new(),
            name_on_card: String::new(),
            expiry: String::new(),
            billing_street_address: String::new(),
            billing_postal_code: String::new(),
            billing_province: String::new(),
        }
    }
}

/// An order without its line items: the address and payment record are the ones
/// the order was placed with, not the customer's current defaults.
#[derive(Clone, Debug, PartialEq, Eq)]
pub struct OrderNoBooks {
    pub order_id: PostgresInt,
    pub shipping_address: Address,
    pub tracking_number: String,
    pub order_status: String,
    pub order_date: String,
    pub payment_info: PaymentInfo,
}

/// An order with its line items: each book and the quantity ordered of it.
#[derive(Clone, Debug, PartialEq, Eq)]
pub struct Order {
    pub order_id: PostgresInt,
    pub shipping_address: Address,
    pub tracking_number: String,
    pub order_status: String,
    pub order_date: String,
    pub payment_info: PaymentInfo,
    pub books: Vec<(Book, u32)>,
}

impl Order {
    /// The order `order` with the line items `books`.
    pub fn from_order_with_id(order: OrderNoBooks, books: Vec<(Book, u32)>) -> (o: Order)
        ensures
            o == (Order {
                order_id: order.order_id,
                shipping_address: order.shipping_address,
                tracking_number: order.tracking_number,
                order_status: order.order_status,
                order_date: order.order_date,
                payment_info: order.payment_info,
                books,
            }),
    {
        let OrderNoBooks {
            order_id,
            shipping_address,
            tracking_number,
            order_status,
            order_date,
            payment_info,
        } = order;
        Order {
            order_id,
            books,
            shipping_address,
            tracking_number,
            order_date,
            order_status,
            payment_info,
        }
    }
}

} // verus!
