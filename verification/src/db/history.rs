//! Reading orders back: an order with the address and payment record it was
//! placed with, and with its line items.
//!
//! A stored expiry that cannot be read is a state error: it is never replaced by a
//! made-up value, and never passed over.

use vstd::prelude::*;
use vstd::string::*;
use crate::db::cart::{clamp_quantity, clamped};
use crate::db::error::{OrderError, StateError, StorageError};
use crate::numeral::{render_i32, signed_decimal};
use crate::db::expiry::{expiry_of_text, Expiry};
use crate::db::search::{first_index, selected, selected_from};
use crate::db::store::{
    has_isbn,
    order_number,
    row_numbered,
    AddressRow,
    OrderLine,
    OrderRow,
    PaymentInfoRow,
    Store,
    Tables,
};
use crate::schema::entities::{Book, PostgresInt};
use crate::schema::joined::{Order, OrderNoBooks};
use crate::schema::no_id::{Address, PaymentInfo};

verus! {

/// The message for a stored expiry that cannot be read.
pub open spec fn invalid_expiry_text() -> Seq<char> {
    "Invalid expiry"@
}

/// The message for an order that is asked for and not stored.
pub open spec fn no_order_text(order_id: i32) -> Seq<char> {
    "No order with the ID ("@ + signed_decimal(order_id as int) + ")"@
}

/// The rows that an order is read from.
pub struct OrderParts {
    pub row: OrderRow,
    pub shipping: AddressRow,
    pub payment: PaymentInfoRow,
    pub billing: AddressRow,
}

/// Whether `order` shows what the rows hold.
pub open spec fn shows_order(order: OrderNoBooks, parts: OrderParts) -> bool {
    &&& order.order_id == parts.row.order_id
    &&& order.shipping_address == parts.shipping.address
    &&& order.tracking_number == parts.row.tracking_number
    &&& order.order_status == parts.row.order_status
    &&& order.order_date@ == parts.row.order_date.text()
    &&& order.payment_info.name_on_card == parts.payment.name_on_card
    &&& expiry_of_text(parts.payment.expiry@) == Some(
        (order.payment_info.expiry.spec_month(), order.payment_info.expiry.spec_year()),
    )
    &&& order.payment_info.card_number == parts.payment.card_number
    &&& order.payment_info.cvv == parts.payment.cvv
    &&& order.payment_info.billing_address == parts.billing.address
}

/// The condition "this line item belongs to the order and its book is in the
/// catalogue".
pub open spec fn is_item_of(order_id: i32, books: Seq<Book>) -> spec_fn(OrderLine) -> bool {
    |line: OrderLine| line.order_id == order_id && first_index(books, has_isbn(line.isbn)) < books.len()
}

/// A line item with its book: the book as the catalogue holds it now, and the
/// quantity clamped at zero.
pub open spec fn item_with_book(books: Seq<Book>) -> spec_fn(OrderLine) -> (Book, u32) {
    |line: OrderLine|
        (books[first_index(books, has_isbn(line.isbn))], clamped(line.quantity as int) as u32)
}

impl Tables {
    /// The rows of an order: the order, the address it ships to, the payment record
    /// and its billing address. `None` where any of them is missing.
    pub open spec fn order_parts(self, order_id: i32) -> Option<OrderParts> {
        match row_numbered(self.orders, order_id) {
            None => None,
            Some(row) => match (
                row_numbered(self.addresses, row.shipping_address_id),
                row_numbered(self.payment_infos, row.payment_info_id),
            ) {
                (Some(shipping), Some(payment)) => match row_numbered(
                    self.addresses,
                    payment.billing_address_id,
                ) {
                    Some(billing) => Some(OrderParts { row, shipping, payment, billing }),
                    None => None,
                },
                _ => None,
            },
        }
    }

    /// The line items of an order with their books, in table order.
    pub open spec fn order_items(self, order_id: i32) -> Seq<(Book, u32)> {
        selected(self.order_lines, is_item_of(order_id, self.books), item_with_book(self.books))
    }

    /// The identifiers of a customer's orders whose rows are all stored, in table
    /// order.
    pub open spec fn orders_of(self, customer_id: i32) -> Seq<i32> {
        selected(self.orders, self.is_whole_order_of(customer_id), order_number())
    }

    /// The condition "this order is the customer's, and all its rows are stored".
    pub open spec fn is_whole_order_of(self, customer_id: i32) -> spec_fn(OrderRow) -> bool {
        |row: OrderRow| row.customer_id == customer_id && self.order_parts(row.order_id) is Some
    }

    /// Whether the expiry stored for an order can be read.
    pub open spec fn is_readable(self, order_id: i32) -> bool {
        self.order_parts(order_id) matches Some(parts) && expiry_of_text(parts.payment.expiry@) is Some
    }

    /// Whether `order` shows the stored order with this identifier, line items
    /// included.
    pub open spec fn shows(self, order: Order, order_id: i32) -> bool {
        &&& self.order_parts(order_id) matches Some(parts)
        &&& shows_order(
            OrderNoBooks {
                order_id: order.order_id,
                shipping_address: order.shipping_address,
                tracking_number: order.tracking_number,
                order_status: order.order_status,
                order_date: order.order_date,
                payment_info: order.payment_info,
            },
            parts,
        )
        &&& order.books@ == self.order_items(order_id)
    }
}

/// Puts an order together from what its rows hold. The expiry is read from its
/// stored text, and a text that is no expiry is a state error.
pub fn assemble_order(
    order_id: PostgresInt,
    shipping_address: Address,
    tracking_number: String,
    order_status: String,
    order_date: String,
    name_on_card: String,
    expiry: &str,
    card_number: String,
    cvv: String,
    billing_address: Address,
) -> (r: Result<OrderNoBooks, StateError>)
    ensures
        match expiry_of_text(expiry@) {
            None => r matches Err(e) && e@ == invalid_expiry_text(),
            Some((month, year)) => {
                &&& r matches Ok(order)
                &&& order.order_id == order_id
                &&& order.shipping_address == shipping_address
                &&& order.tracking_number == tracking_number
                &&& order.order_status == order_status
                &&& order.order_date == order_date
                &&& order.payment_info.name_on_card == name_on_card
                &&& order.payment_info.expiry.spec_month() == month
                &&& order.payment_info.expiry.spec_year() == year
                &&& order.payment_info.card_number == card_number
                &&& order.payment_info.cvv == cvv
                &&& order.payment_info.billing_address == billing_address
            },
        },
{
    let expiry = match Expiry::from_str(expiry) {
        Some(expiry) => expiry,
        None => {
            return Err(StateError::new("Invalid expiry"));
        },
    };
    Ok(
        OrderNoBooks {
            order_id,
            shipping_address,
            tracking_number,
            order_status,
            order_date,
            payment_info: PaymentInfo { name_on_card, expiry, card_number, cvv, billing_address },
        },
    )
}

/// Reads the rows of an order.
fn read_order(store: &Store, order: &OrderRow) -> (r: Option<Result<OrderNoBooks, StateError>>)
    requires
        row_numbered(store@.orders, order.order_id) == Some(*order),
    ensures
        match store@.order_parts(order.order_id) {
            None => r is None,
            Some(parts) => match expiry_of_text(parts.payment.expiry@) {
                None => r matches Some(Err(e)) && e@ == invalid_expiry_text(),
                Some(_) => r matches Some(Ok(shown)) && shows_order(shown, parts),
            },
        },
{
    let shipping = match store.address_row(order.shipping_address_id) {
        Some(shipping) => shipping,
        None => {
            return None;
        },
    };
    let payment = match store.payment_row(order.payment_info_id) {
        Some(payment) => payment,
        None => {
            return None;
        },
    };
    let billing = match store.address_row(payment.billing_address_id) {
        Some(billing) => billing,
        None => {
            return None;
        },
    };
    Some(
        assemble_order(
            order.order_id,
            shipping.address.duplicate(),
            order.tracking_number.clone(),
            order.order_status.clone(),
            order.order_date.to_string(),
            payment.name_on_card.clone(),
            payment.expiry.as_str(),
            payment.card_number.clone(),
            payment.cvv.clone(),
            billing.address.duplicate(),
        ),
    )
}

/// The state error for an order that is asked for and not stored.
pub fn missing_order(order_id: PostgresInt) -> (e: OrderError)
    ensures
        e matches OrderError::StateError(cause) && cause@ == no_order_text(order_id),
{
    let text = String::from_str("No order with the ID (").concat(
        render_i32(order_id).as_str(),
    ).concat(")");
    OrderError::StateError(StateError::new(text.as_str()))
}

/// An order without its line items. An order that is asked for and is missing, or
/// lacks one of its rows, is a state error: whoever asks for an order by its
/// identifier got the identifier from the store.
pub fn get_order_info(store: &Store, order_id: PostgresInt) -> (r: Result<OrderNoBooks, OrderError>)
    requires
        store@.wf(),
    ensures
        match store@.order_parts(order_id) {
            None => r matches Err(OrderError::StateError(e)) && e@ == no_order_text(order_id),
            Some(parts) => match expiry_of_text(parts.payment.expiry@) {
                None => r matches Err(OrderError::StateError(e)) && e@ == invalid_expiry_text(),
                Some(_) => r matches Ok(shown) && shows_order(shown, parts),
            },
        },
{
    let row = match store.order_row(order_id) {
        Some(row) => row,
        None => {
            return Err(missing_order(order_id));
        },
    };
    match read_order(store, row) {
        None => Err(missing_order(order_id)),
        Some(Err(e)) => Err(OrderError::StateError(e)),
        Some(Ok(shown)) => Ok(shown),
    }
}

/// The line items of an order, each with its book.
fn items_of(store: &Store, order_id: PostgresInt) -> (items: Vec<(Book, u32)>)
    ensures
        items@ == store@.order_items(order_id),
{
    let mut items: Vec<(Book, u32)> = Vec::new();
    let mut i: usize = 0;
    while i < store.order_lines.len()
        invariant
            i <= store.order_lines.len(),
            items@ + selected_from(
                store.order_lines@,
                is_item_of(order_id, store.books@),
                item_with_book(store.books@),
                i as int,
            ) == store@.order_items(order_id),
        decreases store.order_lines.len() - i,
    {
        let line = store.order_lines[i];
        if line.order_id == order_id {
            if let Some(at) = store.find_book(line.isbn) {
                let ghost before = items@;
                let item = (store.books[at].duplicate(), clamp_quantity(line.quantity));
                items.push(item);
                proof {
                    let rest = selected_from(
                        store.order_lines@,
                        is_item_of(order_id, store.books@),
                        item_with_book(store.books@),
                        i as int + 1,
                    );
                    assert(item == item_with_book(store.books@)(line));
                    assert(items@ + rest =~= before + (seq![item] + rest));
                }
            }
        }
        i = i + 1;
    }
    proof {
        assert(items@ + Seq::<(Book, u32)>::empty() =~= items@);
    }
    items
}

/// An order with its line items.
pub fn get_books_for_order(store: &Store, order: OrderNoBooks) -> (r: Result<Order, StorageError>)
    ensures
        r matches Ok(full) && full.books@ == store@.order_items(order.order_id) && order == (
        OrderNoBooks {
            order_id: full.order_id,
            shipping_address: full.shipping_address,
            tracking_number: full.tracking_number,
            order_status: full.order_status,
            order_date: full.order_date,
            payment_info: full.payment_info,
        }),
{
    let books = items_of(store, order.order_id);
    Ok(Order::from_order_with_id(order, books))
}

/// Every order of a customer, with its line items, in the order in which the
/// orders were placed. Orders that lack one of their rows are left out. A stored
/// expiry that cannot be read fails the whole call with a state error.
pub fn get_customer_orders_info(store: &Store, customer_id: PostgresInt) -> (r: Result<
    Vec<Order>,
    OrderError,
>)
    requires
        store@.wf(),
    ensures
        if forall|k: int|
            0 <= k < store@.orders_of(customer_id).len() ==> store@.is_readable(
                #[trigger] store@.orders_of(customer_id)[k],
            ) {
            &&& r matches Ok(orders)
            &&& orders@.len() == store@.orders_of(customer_id).len()
            &&& forall|k: int|
                0 <= k < orders@.len() ==> store@.shows(
                    #[trigger] orders@[k],
                    store@.orders_of(customer_id)[k],
                )
        } else {
            r matches Err(OrderError::StateError(e)) && e@ == invalid_expiry_text()
        },
{
    let ghost ids = store@.orders_of(customer_id);
    let ghost wanted = store@.is_whole_order_of(customer_id);
    let mut orders: Vec<Order> = Vec::new();
    let mut i: usize = 0;
    while i < store.orders.len()
        invariant
            i <= store.orders.len(),
            store@.wf(),
            ids == store@.orders_of(customer_id),
            wanted == store@.is_whole_order_of(customer_id),
            orders@.len() <= ids.len(),
            ids.skip(orders@.len() as int) == selected_from(
                store.orders@,
                wanted,
                order_number(),
                i as int,
            ),
            forall|k: int| 0 <= k < orders@.len() ==> store@.is_readable(#[trigger] ids[k]),
            forall|k: int| 0 <= k < orders@.len() ==> store@.shows(#[trigger] orders@[k], ids[k]),
        decreases store.orders.len() - i,
    {
        let row = &store.orders[i];
        proof {
            assert(row.order_id == i + 1);
            assert(row_numbered(store@.orders, row.order_id) == Some(*row));
        }
        if row.customer_id == customer_id {
            match read_order(store, row) {
                None => {},
                Some(read) => {
                    let ghost rest = ids.skip(orders@.len() as int);
                    proof {
                        assert(wanted(*row));
                        let tail = selected_from(
                            store.orders@,
                            wanted,
                            order_number(),
                            i as int + 1,
                        );
                        assert(rest == seq![order_number()(*row)] + tail);
                        assert(rest.len() > 0);
                        assert(rest[0] == row.order_id);
                        assert(ids[orders@.len() as int] == row.order_id);
                        assert(ids.skip(orders@.len() as int + 1) =~= rest.skip(1));
                        assert(rest.skip(1) =~= selected_from(
                            store.orders@,
                            wanted,
                            order_number(),
                            i as int + 1,
                        ));
                    }
                    match read {
                        Err(e) => {
                            proof {
                                assert(!store@.is_readable(ids[orders@.len() as int]));
                            }
                            return Err(OrderError::StateError(e));
                        },
                        Ok(shown) => {
                            let full = Order::from_order_with_id(
                                shown,
                                items_of(store, row.order_id),
                            );
                            orders.push(full);
                        },
                    }
                },
            }
        }
        i = i + 1;
    }
    proof {
        assert(ids.skip(orders@.len() as int).len() == 0);
    }
    Ok(orders)
}

} // verus!
