//! The tables of the bookstore, held in memory.
//!
//! `Store` is the executable store; `Tables` is what it holds, as sequences of
//! rows, and is what every contract speaks of. Tables that hand out identifiers
//! number their rows from 1 in the order in which they were inserted.

use vstd::prelude::*;
use vstd::string::*;
use crate::calendar::Date;
use crate::db::search::{first_from, first_index};
use crate::schema::entities::{Book, Publisher};
use crate::schema::no_id::Address;

verus! {

/// One line of a cart: a customer holds `quantity` copies of a book.
#[derive(Debug, Clone, Copy, PartialEq, Eq, Structural)]
pub struct CartLine {
    pub customer_id: i32,
    pub isbn: i32,
    pub quantity: i32,
}

/// A stored address.
#[derive(Debug, Clone, PartialEq, Eq)]
pub struct AddressRow {
    pub address_id: i32,
    pub address: Address,
}

/// A stored payment record. The expiry is kept as its text.
#[derive(Debug, Clone, PartialEq, Eq)]
pub struct PaymentInfoRow {
    pub payment_info_id: i32,
    pub name_on_card: String,
    pub expiry: String,
    pub card_number: String,
    pub cvv: String,
    pub billing_address_id: i32,
}

/// A stored customer account.
#[derive(Debug, Clone, PartialEq, Eq)]
pub struct CustomerRow {
    pub customer_id: i32,
    pub name: String,
    pub email: String,
    pub password_hash: String,
    pub default_shipping_address: i32,
    pub default_payment_info_id: i32,
}

/// A stored owner account.
#[derive(Debug, Clone, PartialEq, Eq)]
pub struct OwnerRow {
    pub owner_id: i32,
    pub email: String,
    pub name: String,
    pub password_hash: String,
}

/// A stored order. Address and payment record are those the order was placed with.
#[derive(Debug, Clone, PartialEq, Eq)]
pub struct OrderRow {
    pub order_id: i32,
    pub customer_id: i32,
    pub shipping_address_id: i32,
    pub tracking_number: String,
    pub order_status: String,
    pub order_date: Date,
    pub payment_info_id: i32,
}

/// One line item of an order.
#[derive(Debug, Clone, Copy, PartialEq, Eq, Structural)]
pub struct OrderLine {
    pub isbn: i32,
    pub order_id: i32,
    pub quantity: i32,
}

/// What a store holds.
pub struct Tables {
    pub books: Seq<Book>,
    pub publishers: Seq<Publisher>,
    pub addresses: Seq<AddressRow>,
    pub payment_infos: Seq<PaymentInfoRow>,
    pub customers: Seq<CustomerRow>,
    pub owners: Seq<OwnerRow>,
    pub cart: Seq<CartLine>,
    pub orders: Seq<OrderRow>,
    pub order_lines: Seq<OrderLine>,
}

/// The condition "this book has the given ISBN".
pub open spec fn has_isbn(isbn: i32) -> spec_fn(Book) -> bool {
    |book: Book| book.isbn == isbn
}

/// The condition "this line is the given customer's line for the given book".
pub open spec fn is_line(customer_id: i32, isbn: i32) -> spec_fn(CartLine) -> bool {
    |line: CartLine| line.customer_id == customer_id && line.isbn == isbn
}

/// No two books share an ISBN, and no stock is negative.
pub open spec fn books_wf(books: Seq<Book>) -> bool {
    &&& forall|i: int, j: int|
        0 <= i < j < books.len() ==> (#[trigger] books[i]).isbn != (#[trigger] books[j]).isbn
    &&& forall|i: int| 0 <= i < books.len() ==> (#[trigger] books[i]).stock >= 0
}

/// No customer has two lines for one book, and every line holds at least one copy.
pub open spec fn cart_wf(cart: Seq<CartLine>) -> bool {
    &&& forall|i: int, j: int|
        0 <= i < j < cart.len() ==> !((#[trigger] cart[i]).customer_id == (
        #[trigger] cart[j]).customer_id && cart[i].isbn == cart[j].isbn)
    &&& forall|i: int| 0 <= i < cart.len() ==> (#[trigger] cart[i]).quantity > 0
}

/// Whether the row at each position `i` has the identifier `i + 1`.
pub open spec fn numbered<T>(rows: Seq<T>, number: spec_fn(T) -> i32) -> bool {
    forall|i: int| 0 <= i < rows.len() ==> number(#[trigger] rows[i]) == i + 1
}

/// The identifier of a publisher.
pub open spec fn publisher_number() -> spec_fn(Publisher) -> i32 {
    |row: Publisher| row.publisher_id
}

/// The identifier of an address row.
pub open spec fn address_number() -> spec_fn(AddressRow) -> i32 {
    |row: AddressRow| row.address_id
}

/// The identifier of a payment row.
pub open spec fn payment_number() -> spec_fn(PaymentInfoRow) -> i32 {
    |row: PaymentInfoRow| row.payment_info_id
}

/// The identifier of a customer row.
pub open spec fn customer_number() -> spec_fn(CustomerRow) -> i32 {
    |row: CustomerRow| row.customer_id
}

/// The identifier of an owner row.
pub open spec fn owner_number() -> spec_fn(OwnerRow) -> i32 {
    |row: OwnerRow| row.owner_id
}

/// The identifier of an order row.
pub open spec fn order_number() -> spec_fn(OrderRow) -> i32 {
    |row: OrderRow| row.order_id
}

/// A numbered table stays numbered when a row with the next identifier is
/// appended.
pub proof fn lemma_numbered_push<T>(rows: Seq<T>, number: spec_fn(T) -> i32, row: T)
    requires
        numbered(rows, number),
        number(row) == rows.len() + 1,
    ensures
        numbered(rows.push(row), number),
{
    assert forall|i: int| 0 <= i < rows.push(row).len() implies number(
        #[trigger] rows.push(row)[i],
    ) == i + 1 by {
        if i < rows.len() {
            assert(rows.push(row)[i] == rows[i]);
        }
    }
}

/// The row of a numbered table that has a given identifier.
pub open spec fn row_numbered<T>(rows: Seq<T>, id: i32) -> Option<T> {
    if 1 <= id <= rows.len() {
        Some(rows[id - 1])
    } else {
        None
    }
}

impl Tables {
    /// The tables of a store that holds nothing.
    pub open spec fn empty() -> Tables {
        Tables {
            books: Seq::empty(),
            publishers: Seq::empty(),
            addresses: Seq::empty(),
            payment_infos: Seq::empty(),
            customers: Seq::empty(),
            owners: Seq::empty(),
            cart: Seq::empty(),
            orders: Seq::empty(),
            order_lines: Seq::empty(),
        }
    }

    /// What holds of the tables of every store: books and cart lines are keyed as
    /// `books_wf` and `cart_wf` say, stock is never negative, no stored quantity is
    /// zero or less, and the row at position `i` of a numbered table has the
    /// identifier `i + 1`.
    pub open spec fn wf(self) -> bool {
        &&& books_wf(self.books)
        &&& cart_wf(self.cart)
        &&& numbered(self.publishers, publisher_number())
        &&& numbered(self.addresses, address_number())
        &&& numbered(self.payment_infos, payment_number())
        &&& numbered(self.customers, customer_number())
        &&& numbered(self.owners, owner_number())
        &&& numbered(self.orders, order_number())
    }

    /// Where the book with this ISBN stands in the table, or the table's length.
    pub open spec fn book_position(self, isbn: i32) -> int {
        first_index(self.books, has_isbn(isbn))
    }

    /// The row of the customer with this identifier.
    pub open spec fn customer(self, customer_id: i32) -> Option<CustomerRow> {
        row_numbered(self.customers, customer_id)
    }

    /// The stock of a book, or `None` where the catalogue has no such book.
    pub open spec fn stock_of(self, isbn: i32) -> Option<i32> {
        let at = self.book_position(isbn);
        if at < self.books.len() {
            Some(self.books[at].stock)
        } else {
            None
        }
    }
}

/// The bookstore's tables, held in memory.
pub struct Store {
    pub(crate) books: Vec<Book>,
    pub(crate) publishers: Vec<Publisher>,
    pub(crate) addresses: Vec<AddressRow>,
    pub(crate) payment_infos: Vec<PaymentInfoRow>,
    pub(crate) customers: Vec<CustomerRow>,
    pub(crate) owners: Vec<OwnerRow>,
    pub(crate) cart: Vec<CartLine>,
    pub(crate) orders: Vec<OrderRow>,
    pub(crate) order_lines: Vec<OrderLine>,
}

impl View for Store {
    type V = Tables;

    open(crate) spec fn view(&self) -> Tables {
        Tables {
            books: self.books@,
            publishers: self.publishers@,
            addresses: self.addresses@,
            payment_infos: self.payment_infos@,
            customers: self.customers@,
            owners: self.owners@,
            cart: self.cart@,
            orders: self.orders@,
            order_lines: self.order_lines@,
        }
    }
}

impl Store {
    /// A store that holds nothing.
    pub fn new() -> (store: Store)
        ensures
            store@ == Tables::empty(),
            store@.wf(),
    {
        Store {
            books: Vec::new(),
            publishers: Vec::new(),
            addresses: Vec::new(),
            payment_infos: Vec::new(),
            customers: Vec::new(),
            owners: Vec::new(),
            cart: Vec::new(),
            orders: Vec::new(),
            order_lines: Vec::new(),
        }
    }

    /// Where the book with this ISBN stands, if the catalogue has it.
    pub(crate) fn find_book(&self, isbn: i32) -> (r: Option<usize>)
        ensures
            match r {
                Some(at) => at == self@.book_position(isbn) && at < self@.books.len()
                    && self@.books[at as int].isbn == isbn,
                None => self@.book_position(isbn) == self@.books.len(),
            },
    {
        position_of_book(&self.books, isbn)
    }

    /// The row of the customer with this identifier, if there is one.
    pub(crate) fn customer_row(&self, customer_id: i32) -> (r: Option<&CustomerRow>)
        ensures
            r == match self@.customer(customer_id) {
                Some(row) => Some(&row),
                None => None,
            },
    {
        if 1 <= customer_id && customer_id as usize <= self.customers.len() {
            Some(&self.customers[(customer_id - 1) as usize])
        } else {
            None
        }
    }
}

impl Store {
    /// The address row with this identifier, if there is one.
    pub(crate) fn address_row(&self, address_id: i32) -> (r: Option<&AddressRow>)
        ensures
            r == match row_numbered(self@.addresses, address_id) {
                Some(row) => Some(&row),
                None => None,
            },
    {
        if 1 <= address_id && address_id as usize <= self.addresses.len() {
            Some(&self.addresses[(address_id - 1) as usize])
        } else {
            None
        }
    }

    /// The payment row with this identifier, if there is one.
    pub(crate) fn payment_row(&self, payment_info_id: i32) -> (r: Option<&PaymentInfoRow>)
        ensures
            r == match row_numbered(self@.payment_infos, payment_info_id) {
                Some(row) => Some(&row),
                None => None,
            },
    {
        if 1 <= payment_info_id && payment_info_id as usize <= self.payment_infos.len() {
            Some(&self.payment_infos[(payment_info_id - 1) as usize])
        } else {
            None
        }
    }

    /// The order row with this identifier, if there is one.
    pub(crate) fn order_row(&self, order_id: i32) -> (r: Option<&OrderRow>)
        ensures
            r == match row_numbered(self@.orders, order_id) {
                Some(row) => Some(&row),
                None => None,
            },
    {
        if 1 <= order_id && order_id as usize <= self.orders.len() {
            Some(&self.orders[(order_id - 1) as usize])
        } else {
            None
        }
    }
}

/// Where the book with this ISBN stands in a list of books, if it is there.
pub(crate) fn position_of_book(books: &Vec<Book>, isbn: i32) -> (r: Option<usize>)
    ensures
        match r {
            Some(at) => at == first_index(books@, has_isbn(isbn)) && at < books@.len()
                && books@[at as int].isbn == isbn,
            None => first_index(books@, has_isbn(isbn)) == books@.len(),
        },
{
    let mut i: usize = 0;
    while i < books.len()
        invariant
            i <= books.len(),
            first_index(books@, has_isbn(isbn)) == first_from(books@, has_isbn(isbn), i as int),
        decreases books.len() - i,
    {
        if books[i].isbn == isbn {
            return Some(i);
        }
        i = i + 1;
    }
    None
}

/// A copy of a list of books.
pub(crate) fn copy_books(books: &Vec<Book>) -> (r: Vec<Book>)
    ensures
        r@ == books@,
{
    let mut r: Vec<Book> = Vec::new();
    let mut i: usize = 0;
    while i < books.len()
        invariant
            i <= books.len(),
            r@ == books@.take(i as int),
        decreases books.len() - i,
    {
        r.push(books[i].duplicate());
        proof {
            assert(r@ =~= books@.take(i as int + 1));
        }
        i = i + 1;
    }
    proof {
        assert(books@.take(books@.len() as int) =~= books@);
    }
    r
}

} // verus!
