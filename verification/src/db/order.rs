//! Placing an order.
//!
//! An order is placed in stages. Every line of the cart is validated against the
//! stock. The shipping address and the payment record are resolved, from what the
//! customer submitted or from what the customer registered with. Then the order
//! row, its line items, the new stock and the emptied cart are stored together or
//! not at all.
//!
//! A line is accepted only if its quantity is strictly below the stock, so the
//! last copy of a book cannot be ordered. A discontinued book is ordered like any
//! other: discontinuing a book hides it from searches and leaves carts alone.

use vstd::prelude::*;
use vstd::string::*;
use crate::calendar::Date;
use crate::db::cart::{clear_cart, is_enough_stock, lemma_without_cart, of_another};
use crate::db::error::{OrderError, StateError, StorageError};
use crate::db::identity::{
    get_or_insert_address,
    get_or_insert_payment_info,
    payment_row_of,
};
use crate::db::search::{first_index, kept, lemma_first_from, lemma_first_index_is};
use crate::db::store::{
    books_wf,
    copy_books,
    has_isbn,
    lemma_numbered_push,
    order_number,
    position_of_book,
    AddressRow,
    OrderLine,
    OrderRow,
    PaymentInfoRow,
    Store,
    Tables,
};
use crate::numeral::{decimal, render_i32, render_u32, signed_decimal};
use crate::schema::entities::{Book, PostgresInt, ISBN};
use crate::schema::no_id::{Address, PaymentInfo};

verus! {

/// Why an order is not placed.
pub enum Fault {
    /// A line asks for more than the stock allows.
    NotEnoughStock,
    /// The store failed.
    Storage(StorageError),
    /// The customer has no row.
    NoCustomer,
    /// The store answered something that was not asked.
    Protocol,
}

/// The message for an answer that was not asked for.
pub open spec fn protocol_text() -> Seq<char> {
    "Unexpected reply from the store"@
}

/// The message for a customer who has no row.
pub open spec fn no_customer_text(customer_id: i32) -> Seq<char> {
    "No customer with the ID ("@ + signed_decimal(customer_id as int) + ")"@
}

/// Whether the error `e` reports the fault `fault`.
pub open spec fn reports(e: OrderError, fault: Fault, customer_id: i32) -> bool {
    match fault {
        Fault::NotEnoughStock => e == OrderError::NotEnoughStock,
        Fault::Storage(cause) => e == OrderError::DBError(cause),
        Fault::NoCustomer => e matches OrderError::StateError(cause) && cause@ == no_customer_text(
            customer_id,
        ),
        Fault::Protocol => e matches OrderError::StateError(cause) && cause@ == protocol_text(),
    }
}

/// Whether the result `r` is the failure `fault`.
pub open spec fn fails_with(r: Result<PostgresInt, OrderError>, fault: Fault, customer_id: i32) -> bool {
    r matches Err(e) && reports(e, fault, customer_id)
}

/// Whether a text is a tracking number: the decimal numeral of a 32-bit number.
pub open spec fn is_tracking_number(text: Seq<char>) -> bool {
    exists|n: u32| text == #[trigger] decimal(n as nat)
}

/// The status of an order that has just been placed.
pub open spec fn placed_status() -> Seq<char> {
    "PR"@
}

/// The first thing wrong with the lines at or after `from`, taken in order: a book
/// that the catalogue lacks, or a quantity that is not strictly below the stock.
pub open spec fn first_fault(books: Seq<Book>, lines: Seq<(ISBN, u32)>, from: int) -> Option<Fault>
    decreases lines.len() - from,
{
    if from >= lines.len() {
        None
    } else {
        let at = first_index(books, has_isbn(lines[from].0));
        if at >= books.len() {
            Some(Fault::Storage(StorageError::RowNotFound))
        } else if !is_enough_stock(books[at].stock as int, lines[from].1 as int) {
            Some(Fault::NotEnoughStock)
        } else {
            first_fault(books, lines, from + 1)
        }
    }
}

/// The books after the lines at or after `from` were taken out of stock one after
/// the other, each only if the stock left is at least its quantity; `None` where
/// one of them cannot be taken.
pub open spec fn take_stock(books: Seq<Book>, lines: Seq<(ISBN, u32)>, from: int) -> Option<Seq<Book>>
    decreases lines.len() - from,
{
    if from >= lines.len() {
        Some(books)
    } else {
        let at = first_index(books, has_isbn(lines[from].0));
        if at < books.len() && books[at].stock >= lines[from].1 {
            take_stock(
                books.update(at, books[at].with_stock((books[at].stock - lines[from].1) as i32)),
                lines,
                from + 1,
            )
        } else {
            None
        }
    }
}

/// The line items of an order: one for each line, in order.
pub open spec fn order_lines_of(order_id: i32, lines: Seq<(ISBN, u32)>) -> Seq<OrderLine> {
    Seq::new(
        lines.len(),
        |i: int| OrderLine { isbn: lines[i].0, order_id, quantity: lines[i].1 as i32 },
    )
}

/// Whether `row` is the row of a new order.
pub open spec fn order_row_of(
    row: OrderRow,
    order_id: i32,
    customer_id: i32,
    shipping_address_id: i32,
    payment_info_id: i32,
    tracking_number: Seq<char>,
    order_date: Date,
) -> bool {
    &&& row.order_id == order_id
    &&& row.customer_id == customer_id
    &&& row.shipping_address_id == shipping_address_id
    &&& row.payment_info_id == payment_info_id
    &&& row.tracking_number@ == tracking_number
    &&& row.order_status@ == placed_status()
    &&& row.order_date == order_date
}

/// Whether the payment table `after` follows from `before`: with one row more, for
/// the submitted record, where a row is stored, and unchanged otherwise.
pub open spec fn payment_rows_follow(
    before: Seq<PaymentInfoRow>,
    after: Seq<PaymentInfoRow>,
    payment_info: Option<PaymentInfo>,
    billed_to: Option<i32>,
) -> bool {
    match billed_to {
        Some(billing_address_id) => {
            &&& payment_info is Some
            &&& after.len() == before.len() + 1
            &&& after.drop_last() == before
            &&& payment_row_of(
                after.last(),
                after.len() as i32,
                payment_info->0,
                billing_address_id,
            )
        },
        None => after == before,
    }
}

/// What resolving the payment record of an order comes to.
pub struct PaymentStep {
    /// The address table afterwards.
    pub addresses: Seq<AddressRow>,
    /// The billing address of the payment row that is stored, where one is stored.
    pub new_row_billed_to: Option<i32>,
    /// The identifier of the payment record, or the fault.
    pub result: Result<i32, Fault>,
}

/// What an order that can be stored stores.
pub struct Commit {
    /// The identifier of the order.
    pub order_id: i32,
    /// The address the order ships to.
    pub shipping_address_id: i32,
    /// The payment record the order is paid with.
    pub payment_info_id: i32,
    /// The catalogue after the order's books were taken out of stock.
    pub books: Seq<Book>,
}

/// What placing an order comes to, but for the text of rows that are stored anew.
pub struct OrderPlan {
    /// The address table afterwards.
    pub addresses: Seq<AddressRow>,
    /// The billing address of the payment row that is stored, where one is stored.
    pub new_payment_billed_to: Option<i32>,
    /// What is stored for the order, or why the order is not placed.
    pub verdict: Result<Commit, Fault>,
}

impl Tables {
    /// Resolving the shipping address: a submitted address is resolved as any
    /// address is; without one, the customer's registered address is taken, and a
    /// customer without a row is a fault.
    pub open spec fn plan_shipping(self, customer_id: i32, address: Option<Address>) -> (
        Seq<AddressRow>,
        Result<i32, Fault>,
    ) {
        match address {
            Some(submitted) => match self.resolve_address(submitted) {
                (after, Ok(id)) => (after.addresses, Ok(id)),
                (after, Err(e)) => (after.addresses, Err(Fault::Storage(e))),
            },
            None => match self.customer(customer_id) {
                Some(customer) => (self.addresses, Ok(customer.default_shipping_address)),
                None => (self.addresses, Err(Fault::NoCustomer)),
            },
        }
    }

    /// Resolving the payment record: a submitted record is resolved as any record
    /// is; without one, the customer's registered record is taken.
    pub open spec fn plan_order_payment(self, customer_id: i32, payment_info: Option<PaymentInfo>) -> PaymentStep {
        match payment_info {
            Some(submitted) => {
                let plan = self.plan_payment(submitted);
                PaymentStep {
                    addresses: plan.addresses,
                    new_row_billed_to: plan.new_row_billed_to,
                    result: match plan.result {
                        Ok(id) => Ok(id),
                        Err(e) => Err(Fault::Storage(e)),
                    },
                }
            },
            None => PaymentStep {
                addresses: self.addresses,
                new_row_billed_to: None,
                result: match self.customer(customer_id) {
                    Some(customer) => Ok(customer.default_payment_info_id),
                    None => Err(Fault::NoCustomer),
                },
            },
        }
    }

    /// Whether the order can be stored: the order table must have an identifier
    /// left, and every line must be taken out of the stock that the lines before it
    /// left. Gives the order's identifier and the catalogue afterwards.
    pub open spec fn plan_commit(self, lines: Seq<(ISBN, u32)>) -> Result<(i32, Seq<Book>), Fault> {
        if self.orders.len() >= i32::MAX {
            Err(Fault::Storage(StorageError::OutOfRange))
        } else {
            match take_stock(self.books, lines, 0) {
                Some(books) => Ok(((self.orders.len() + 1) as i32, books)),
                None => Err(Fault::NotEnoughStock),
            }
        }
    }

    /// What placing an order comes to. The lines are validated first, and a fault
    /// there ends the attempt before anything is touched. Then the shipping address
    /// and the payment record are resolved, in this order; rows that this stores
    /// stay whatever comes after. Last comes the decision whether the order can be
    /// stored.
    pub open spec fn plan_order(
        self,
        customer_id: i32,
        lines: Seq<(ISBN, u32)>,
        address: Option<Address>,
        payment_info: Option<PaymentInfo>,
    ) -> OrderPlan {
        match first_fault(self.books, lines, 0) {
            Some(fault) => OrderPlan {
                addresses: self.addresses,
                new_payment_billed_to: None,
                verdict: Err(fault),
            },
            None => match self.plan_shipping(customer_id, address) {
                (addresses, Err(fault)) => OrderPlan {
                    addresses,
                    new_payment_billed_to: None,
                    verdict: Err(fault),
                },
                (addresses, Ok(shipping_address_id)) => {
                    let step = (Tables { addresses, ..self }).plan_order_payment(
                        customer_id,
                        payment_info,
                    );
                    OrderPlan {
                        addresses: step.addresses,
                        new_payment_billed_to: step.new_row_billed_to,
                        verdict: match step.result {
                            Err(fault) => Err(fault),
                            Ok(payment_info_id) => match self.plan_commit(lines) {
                                Err(fault) => Err(fault),
                                Ok((order_id, books)) => Ok(
                                    Commit { order_id, shipping_address_id, payment_info_id, books },
                                ),
                            },
                        },
                    }
                },
            },
        }
    }

    /// Whether `after` is what these tables become when the order is stored as
    /// `commit` says: the new stock, one order row more, the order's line items
    /// behind the others, and the customer's cart emptied.
    pub open spec fn committed(
        self,
        after: Tables,
        commit: Commit,
        customer_id: i32,
        lines: Seq<(ISBN, u32)>,
        tracking_number: Seq<char>,
        order_date: Date,
    ) -> bool {
        &&& after == (Tables {
            books: commit.books,
            cart: kept(self.cart, of_another(customer_id)),
            orders: after.orders,
            order_lines: self.order_lines + order_lines_of(commit.order_id, lines),
            ..self
        })
        &&& after.orders.len() == self.orders.len() + 1
        &&& after.orders.drop_last() == self.orders
        &&& order_row_of(
            after.orders.last(),
            commit.order_id,
            customer_id,
            commit.shipping_address_id,
            commit.payment_info_id,
            tracking_number,
            order_date,
        )
    }

    /// Whether `after` and `r` are what placing an order makes of these tables.
    ///
    /// The address table is the plan's. The payment table has the plan's new row, if
    /// any. Where the plan's verdict is a fault, `r` reports it, and books, carts,
    /// orders and line items are untouched. Where it is a commit, `r` is the order's
    /// identifier and the commit is stored.
    pub open spec fn order_placed(
        self,
        after: Tables,
        customer_id: i32,
        lines: Seq<(ISBN, u32)>,
        address: Option<Address>,
        payment_info: Option<PaymentInfo>,
        tracking_number: Seq<char>,
        order_date: Date,
        r: Result<PostgresInt, OrderError>,
    ) -> bool {
        let plan = self.plan_order(customer_id, lines, address, payment_info);
        let resolved = Tables {
            addresses: plan.addresses,
            payment_infos: after.payment_infos,
            ..self
        };
        &&& payment_rows_follow(
            self.payment_infos,
            after.payment_infos,
            payment_info,
            plan.new_payment_billed_to,
        )
        &&& match plan.verdict {
            Err(fault) => fails_with(r, fault, customer_id) && after == resolved,
            Ok(commit) => r == Ok::<PostgresInt, OrderError>(commit.order_id) && resolved.committed(
                after,
                commit,
                customer_id,
                lines,
                tracking_number,
                order_date,
            ),
        }
    }
}

/// Calls `rand::thread_rng` and draws one number with `RngCore::next_u32`. The
/// contract claims nothing of the number.
#[verifier::external_body]
fn random_u32() -> u32 {
    rand::RngCore::next_u32(&mut rand::thread_rng())
}

/// The tracking number for the number drawn: its decimal numeral.
pub fn tracking_number_of(n: u32) -> (r: String)
    ensures
        r@ == decimal(n as nat),
        is_tracking_number(r@),
{
    render_u32(n)
}

/// A fresh tracking number: a random 32-bit number in decimal. Nothing keeps two
/// orders from getting the same one.
pub fn get_tracking_number() -> (r: String)
    ensures
        is_tracking_number(r@),
{
    tracking_number_of(random_u32())
}

/// Taking stock keeps the catalogue well formed: no stock goes below zero.
pub proof fn lemma_take_stock_wf(books: Seq<Book>, lines: Seq<(ISBN, u32)>, from: int)
    requires
        books_wf(books),
        0 <= from,
    ensures
        take_stock(books, lines, from) matches Some(after) ==> books_wf(after) && after.len()
            == books.len(),
    decreases lines.len() - from,
{
    if from < lines.len() {
        let at = first_index(books, has_isbn(lines[from].0));
        lemma_first_from(books, has_isbn(lines[from].0), 0);
        if at < books.len() && books[at].stock >= lines[from].1 {
            let next = books.update(
                at,
                books[at].with_stock((books[at].stock - lines[from].1) as i32),
            );
            assert forall|i: int| 0 <= i < next.len() implies (#[trigger] next[i]).isbn
                == books[i].isbn && next[i].stock >= 0 by {}
            assert(books_wf(next));
            lemma_take_stock_wf(next, lines, from + 1);
        }
    }
}

/// Validates the lines of an order against the stock, in order.
pub fn validate_lines(store: &Store, lines: &Vec<(ISBN, u32)>) -> (r: Result<(), OrderError>)
    ensures
        match first_fault(store@.books, lines@, 0) {
            None => r is Ok,
            Some(fault) => r matches Err(e) && forall|customer_id: i32|
                reports(e, fault, customer_id),
        },
{
    let mut i: usize = 0;
    while i < lines.len()
        invariant
            i <= lines.len(),
            first_fault(store@.books, lines@, 0) == first_fault(store@.books, lines@, i as int),
        decreases lines.len() - i,
    {
        let (isbn, quantity) = lines[i];
        match store.find_book(isbn) {
            None => {
                return Err(OrderError::DBError(StorageError::RowNotFound));
            },
            Some(at) => {
                if !crate::db::cart::enough_stock(store.books[at].stock, quantity) {
                    return Err(OrderError::NotEnoughStock);
                }
            },
        }
        i = i + 1;
    }
    Ok(())
}

pub(crate) fn no_customer(customer_id: i32) -> (e: OrderError)
    ensures
        reports(e, Fault::NoCustomer, customer_id),
{
    let text = String::from_str("No customer with the ID (").concat(
        render_i32(customer_id).as_str(),
    ).concat(")");
    OrderError::StateError(StateError::new(text.as_str()))
}

/// Resolves the address an order ships to.
pub fn resolve_shipping(store: &mut Store, customer_id: PostgresInt, address: Option<Address>) -> (r:
    Result<PostgresInt, OrderError>)
    requires
        old(store)@.wf(),
    ensures
        final(store)@.wf(),
        final(store)@ == (Tables {
            addresses: old(store)@.plan_shipping(customer_id, address).0,
            ..old(store)@
        }),
        match old(store)@.plan_shipping(customer_id, address).1 {
            Ok(id) => r == Ok::<PostgresInt, OrderError>(id),
            Err(fault) => fails_with(r, fault, customer_id),
        },
{
    match address {
        Some(submitted) => match get_or_insert_address(store, submitted) {
            Ok(id) => Ok(id),
            Err(e) => Err(OrderError::DBError(e)),
        },
        None => match store.customer_row(customer_id) {
            Some(customer) => Ok(customer.default_shipping_address),
            None => Err(no_customer(customer_id)),
        },
    }
}

/// Resolves the payment record an order is paid with.
pub fn resolve_payment(
    store: &mut Store,
    customer_id: PostgresInt,
    payment_info: Option<PaymentInfo>,
) -> (r: Result<PostgresInt, OrderError>)
    requires
        old(store)@.wf(),
    ensures
        final(store)@.wf(),
        final(store)@ == (Tables {
            addresses: old(store)@.plan_order_payment(customer_id, payment_info).addresses,
            payment_infos: final(store)@.payment_infos,
            ..old(store)@
        }),
        payment_rows_follow(
            old(store)@.payment_infos,
            final(store)@.payment_infos,
            payment_info,
            old(store)@.plan_order_payment(customer_id, payment_info).new_row_billed_to,
        ),
        match old(store)@.plan_order_payment(customer_id, payment_info).result {
            Ok(id) => r == Ok::<PostgresInt, OrderError>(id),
            Err(fault) => fails_with(r, fault, customer_id),
        },
{
    match payment_info {
        Some(submitted) => match get_or_insert_payment_info(store, submitted) {
            Ok(id) => Ok(id),
            Err(e) => Err(OrderError::DBError(e)),
        },
        None => match store.customer_row(customer_id) {
            Some(customer) => Ok(customer.default_payment_info_id),
            None => Err(no_customer(customer_id)),
        },
    }
}

/// Takes the books of every line out of stock, each only if the stock left is at
/// least its quantity. Either every line is taken or the stock stays as it was.
pub fn remove_book_stock(store: &mut Store, lines: &Vec<(ISBN, u32)>) -> (r: Result<(), OrderError>)
    requires
        old(store)@.wf(),
    ensures
        final(store)@.wf(),
        match take_stock(old(store)@.books, lines@, 0) {
            Some(books) => r is Ok && final(store)@ == (Tables { books, ..old(store)@ }),
            None => r == Err::<(), OrderError>(OrderError::NotEnoughStock) && final(store)@ == old(
                store,
            )@,
        },
{
    let mut books = copy_books(&store.books);
    let mut i: usize = 0;
    while i < lines.len()
        invariant
            i <= lines.len(),
            store@ == old(store)@,
            store@.wf(),
            take_stock(store@.books, lines@, 0) == take_stock(books@, lines@, i as int),
        decreases lines.len() - i,
    {
        let (isbn, quantity) = lines[i];
        match position_of_book(&books, isbn) {
            None => {
                return Err(OrderError::NotEnoughStock);
            },
            Some(at) => {
                let stock = books[at].stock;
                if (stock as i64) < (quantity as i64) {
                    return Err(OrderError::NotEnoughStock);
                }
                books[at].stock = (stock as i64 - quantity as i64) as i32;
            },
        }
        i = i + 1;
    }
    proof {
        lemma_take_stock_wf(store@.books, lines@, 0);
    }
    store.books = books;
    Ok(())
}

/// Whether every quantity fits the column that stores it.
pub open spec fn quantities_fit(lines: Seq<(ISBN, u32)>) -> bool {
    forall|i: int| 0 <= i < lines.len() ==> (#[trigger] lines[i]).1 <= i32::MAX
}

fn all_fit(lines: &Vec<(ISBN, u32)>) -> (r: bool)
    ensures
        r == quantities_fit(lines@),
{
    let mut i: usize = 0;
    while i < lines.len()
        invariant
            i <= lines.len(),
            forall|j: int| 0 <= j < i ==> (#[trigger] lines@[j]).1 <= i32::MAX,
        decreases lines.len() - i,
    {
        if lines[i].1 > i32::MAX as u32 {
            return false;
        }
        i = i + 1;
    }
    true
}

/// Stores the line items of an order, in the order of the lines. Where a quantity
/// does not fit its column, nothing is stored.
pub fn add_books_to_order(store: &mut Store, lines: &Vec<(ISBN, u32)>, order_id: PostgresInt) -> (r:
    Result<(), StorageError>)
    requires
        old(store)@.wf(),
    ensures
        final(store)@.wf(),
        if quantities_fit(lines@) {
            r is Ok && final(store)@ == (Tables {
                order_lines: old(store)@.order_lines + order_lines_of(order_id, lines@),
                ..old(store)@
            })
        } else {
            r == Err::<(), StorageError>(StorageError::OutOfRange) && final(store)@ == old(store)@
        },
{
    if !all_fit(lines) {
        return Err(StorageError::OutOfRange);
    }
    let mut i: usize = 0;
    while i < lines.len()
        invariant
            i <= lines.len(),
            store@.wf(),
            quantities_fit(lines@),
            store@ == (Tables {
                order_lines: old(store)@.order_lines + order_lines_of(order_id, lines@).take(i as int),
                ..old(store)@
            }),
        decreases lines.len() - i,
    {
        let (isbn, quantity) = lines[i];
        store.order_lines.push(OrderLine { isbn, order_id, quantity: quantity as i32 });
        proof {
            let all = order_lines_of(order_id, lines@);
            assert(store@.order_lines =~= old(store)@.order_lines + all.take(i as int + 1));
        }
        i = i + 1;
    }
    proof {
        let all = order_lines_of(order_id, lines@);
        assert(all.take(lines@.len() as int) =~= all);
    }
    Ok(())
}

/// A line that was taken out of stock asks for no more than the stock had.
proof fn lemma_taken_lines_fit(books: Seq<Book>, lines: Seq<(ISBN, u32)>, from: int)
    requires
        0 <= from,
        take_stock(books, lines, from) is Some,
    ensures
        forall|i: int| from <= i < lines.len() ==> (#[trigger] lines[i]).1 <= i32::MAX,
        from == 0 ==> quantities_fit(lines),
    decreases lines.len() - from,
{
    if from < lines.len() {
        let at = first_index(books, has_isbn(lines[from].0));
        lemma_taken_lines_fit(
            books.update(at, books[at].with_stock((books[at].stock - lines[from].1) as i32)),
            lines,
            from + 1,
        );
    }
}

/// Stores an order whose address and payment record are resolved: the order row,
/// its line items, the new stock and the emptied cart, or nothing at all.
pub fn commit_order(
    store: &mut Store,
    customer_id: PostgresInt,
    shipping_address_id: PostgresInt,
    payment_info_id: PostgresInt,
    lines: &Vec<(ISBN, u32)>,
    tracking_number: String,
    order_date: Date,
) -> (r: Result<PostgresInt, OrderError>)
    requires
        old(store)@.wf(),
    ensures
        final(store)@.wf(),
        match old(store)@.plan_commit(lines@) {
            Err(fault) => fails_with(r, fault, customer_id) && final(store)@ == old(store)@,
            Ok((order_id, books)) => r == Ok::<PostgresInt, OrderError>(order_id) && old(
                store,
            )@.committed(
                final(store)@,
                Commit { order_id, shipping_address_id, payment_info_id, books },
                customer_id,
                lines@,
                tracking_number@,
                order_date,
            ),
        },
{
    if store.orders.len() >= i32::MAX as usize {
        return Err(OrderError::DBError(StorageError::OutOfRange));
    }
    match remove_book_stock(store, lines) {
        Err(e) => {
            return Err(e);
        },
        Ok(()) => {},
    }
    let order_id = (store.orders.len() + 1) as i32;
    let row = OrderRow {
        order_id,
        customer_id,
        shipping_address_id,
        tracking_number,
        order_status: String::from_str("PR"),
        order_date,
        payment_info_id,
    };
    proof {
        lemma_numbered_push(store@.orders, order_number(), row);
        lemma_taken_lines_fit(old(store)@.books, lines@, 0);
    }
    store.orders.push(row);
    proof {
        assert(store@.orders.drop_last() =~= old(store)@.orders);
    }
    let _ = add_books_to_order(store, lines, order_id);
    let _ = clear_cart(store, customer_id);
    Ok(order_id)
}

/// Places an order for the given lines with a given tracking number and date.
///
/// Nothing is stored for the order unless every stage succeeds: a fault leaves
/// books, carts, orders and line items as they were. An address or a payment
/// record that was resolved before the fault stays stored.
pub fn place_order(
    store: &mut Store,
    customer_id: PostgresInt,
    books: Vec<(ISBN, u32)>,
    address: Option<Address>,
    payment_info: Option<PaymentInfo>,
    tracking_number: String,
    order_date: Date,
) -> (r: Result<PostgresInt, OrderError>)
    requires
        old(store)@.wf(),
    ensures
        final(store)@.wf(),
        old(store)@.order_placed(
            final(store)@,
            customer_id,
            books@,
            address,
            payment_info,
            tracking_number@,
            order_date,
            r,
        ),
        r is Ok ==> final(store)@.cart_of(customer_id) == Seq::<(ISBN, u32)>::empty(),
        r is Err ==> final(store)@.books == old(store)@.books && final(store)@.cart == old(
            store,
        )@.cart && final(store)@.orders == old(store)@.orders && final(store)@.order_lines == old(
            store,
        )@.order_lines,
{
    match validate_lines(store, &books) {
        Err(e) => {
            return Err(e);
        },
        Ok(()) => {},
    }
    let shipping_address_id = match resolve_shipping(store, customer_id, address) {
        Ok(id) => id,
        Err(e) => {
            return Err(e);
        },
    };
    let payment_info_id = match resolve_payment(store, customer_id, payment_info) {
        Ok(id) => id,
        Err(e) => {
            return Err(e);
        },
    };
    let ghost resolved = store@;
    let r = commit_order(
        store,
        customer_id,
        shipping_address_id,
        payment_info_id,
        &books,
        tracking_number,
        order_date,
    );
    proof {
        if r is Ok {
            lemma_without_cart(resolved, customer_id);
        }
    }
    r
}

/// Places an order for the given lines, with a fresh tracking number and today's
/// date.
pub fn create_order(
    store: &mut Store,
    customer_id: PostgresInt,
    books: Vec<(ISBN, u32)>,
    address: Option<Address>,
    payment_info: Option<PaymentInfo>,
) -> (r: Result<PostgresInt, OrderError>)
    requires
        old(store)@.wf(),
    ensures
        final(store)@.wf(),
        exists|tracking_number: Seq<char>, order_date: Date|
            is_tracking_number(tracking_number) && order_date.wf() && #[trigger] old(
                store,
            )@.order_placed(
                final(store)@,
                customer_id,
                books@,
                address,
                payment_info,
                tracking_number,
                order_date,
                r,
            ),
        r is Ok ==> final(store)@.cart_of(customer_id) == Seq::<(ISBN, u32)>::empty(),
        r is Err ==> final(store)@.books == old(store)@.books && final(store)@.cart == old(
            store,
        )@.cart && final(store)@.orders == old(store)@.orders && final(store)@.order_lines == old(
            store,
        )@.order_lines,
{
    let tracking_number = get_tracking_number();
    let order_date = Date::today();
    place_order(store, customer_id, books, address, payment_info, tracking_number, order_date)
}

} // verus!
