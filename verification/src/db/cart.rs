//! Carts: for each customer, the books held and how many of each.
//!
//! A line never holds a quantity of zero: setting a line to zero deletes it.
//! Stock is compared when a quantity is set, not when one copy is added.

use vstd::prelude::*;
use crate::db::error::{CartError, StorageError};
use crate::db::search::{
    first_from,
    first_index,
    kept,
    lemma_first_from,
    lemma_selected_from_none,
    lemma_selected_from_source,
    made_of,
    selected,
    selected_from,
    whole_row,
};
use crate::db::store::{cart_wf, is_line, CartLine, Store, Tables};
use crate::schema::entities::{PostgresInt, ISBN};

verus! {

/// A stored quantity as a cart shows it: a negative one counts as zero.
pub open spec fn clamped(quantity: int) -> int {
    if quantity < 0 {
        0
    } else {
        quantity
    }
}

/// Whether a book with `stock` copies has enough for `quantity`: the quantity must
/// be strictly less than the stock.
pub open spec fn is_enough_stock(stock: int, quantity: int) -> bool {
    quantity < stock
}

/// The condition "this line belongs to the given customer".
pub open spec fn of_customer(customer_id: i32) -> spec_fn(CartLine) -> bool {
    |line: CartLine| line.customer_id == customer_id
}

/// The condition "this line belongs to someone else than the given customer".
pub open spec fn of_another(customer_id: i32) -> spec_fn(CartLine) -> bool {
    |line: CartLine| line.customer_id != customer_id
}

/// What a cart shows of a line: the book, and the quantity clamped at zero.
pub open spec fn line_entry() -> spec_fn(CartLine) -> (ISBN, u32) {
    |line: CartLine| (line.isbn, clamped(line.quantity as int) as u32)
}

/// The one write that a change of quantity comes down to.
#[derive(Debug, Clone, Copy, PartialEq, Eq, Structural)]
pub enum CartChange {
    /// Delete the line.
    Remove,
    /// Store the line with this quantity, inserting it where it is missing.
    Put(i32),
}

impl Tables {
    /// Where the customer's line for a book stands in the cart table, or the table's
    /// length.
    pub open spec fn line_position(self, customer_id: i32, isbn: i32) -> int {
        first_index(self.cart, is_line(customer_id, isbn))
    }

    /// The quantity stored for a customer and a book, or `None` where the customer
    /// has no line for it.
    pub open spec fn quantity_in_cart(self, customer_id: i32, isbn: i32) -> Option<i32> {
        let at = self.line_position(customer_id, isbn);
        if at < self.cart.len() {
            Some(self.cart[at].quantity)
        } else {
            None
        }
    }

    /// A customer's cart: each line's book and quantity, in table order.
    pub open spec fn cart_of(self, customer_id: i32) -> Seq<(ISBN, u32)> {
        selected(self.cart, of_customer(customer_id), line_entry())
    }

    /// These tables with the customer's line for a book set to `quantity`: the line
    /// is replaced where it exists, and appended where it does not.
    pub open spec fn with_line(self, customer_id: i32, isbn: i32, quantity: i32) -> Tables {
        let at = self.line_position(customer_id, isbn);
        let line = CartLine { customer_id, isbn, quantity };
        Tables {
            cart: if at < self.cart.len() {
                self.cart.update(at, line)
            } else {
                self.cart.push(line)
            },
            ..self
        }
    }

    /// These tables without the customer's line for a book.
    pub open spec fn without_line(self, customer_id: i32, isbn: i32) -> Tables {
        let at = self.line_position(customer_id, isbn);
        Tables {
            cart: if at < self.cart.len() {
                self.cart.remove(at)
            } else {
                self.cart
            },
            ..self
        }
    }

    /// These tables without any line of the customer.
    pub open spec fn without_cart(self, customer_id: i32) -> Tables {
        Tables { cart: kept(self.cart, of_another(customer_id)), ..self }
    }

    /// These tables after a change of quantity was written.
    pub open spec fn with_change(self, customer_id: i32, isbn: i32, change: CartChange) -> Tables {
        match change {
            CartChange::Remove => self.without_line(customer_id, isbn),
            CartChange::Put(quantity) => self.with_line(customer_id, isbn, quantity),
        }
    }

    /// What adding one copy of a book to a customer's cart does: the line's quantity
    /// goes up by one, or a line with one copy is inserted. Stock is not looked at.
    /// A quantity that cannot go up is a storage error and changes nothing.
    pub open spec fn add_to_cart(self, customer_id: i32, isbn: i32) -> (
        Tables,
        Result<(), StorageError>,
    ) {
        match self.quantity_in_cart(customer_id, isbn) {
            Some(quantity) => if quantity < i32::MAX {
                (self.with_line(customer_id, isbn, (quantity + 1) as i32), Ok(()))
            } else {
                (self, Err(StorageError::OutOfRange))
            },
            None => (self.with_line(customer_id, isbn, 1), Ok(())),
        }
    }

    /// What setting a quantity does: a book the catalogue lacks is a storage error,
    /// a quantity not strictly below the stock is refused, and both leave the tables
    /// as they were; otherwise the line is deleted for zero and put for anything
    /// else.
    pub open spec fn set_quantity(self, customer_id: i32, isbn: i32, quantity: u32) -> (
        Tables,
        Result<(), CartError>,
    ) {
        match self.stock_of(isbn) {
            None => (self, Err(CartError::DBError(StorageError::RowNotFound))),
            Some(stock) => match quantity_change_spec(stock, quantity) {
                Err(e) => (self, Err(e)),
                Ok(change) => (self.with_change(customer_id, isbn, change), Ok(())),
            },
        }
    }
}

/// The write that setting `quantity` for a book with `stock` copies comes down to,
/// or the refusal.
pub open spec fn quantity_change_spec(stock: i32, quantity: u32) -> Result<CartChange, CartError> {
    if !is_enough_stock(stock as int, quantity as int) {
        Err(CartError::NotEnoughStock)
    } else if quantity == 0 {
        Ok(CartChange::Remove)
    } else {
        Ok(CartChange::Put(quantity as i32))
    }
}

/// Clamps a stored quantity at zero.
pub fn clamp_quantity(quantity: i32) -> (r: u32)
    ensures
        r == clamped(quantity as int),
{
    if quantity < 0 {
        0
    } else {
        quantity as u32
    }
}

/// Whether `quantity` copies can be taken of a book that has `stock`: only if
/// `quantity` is strictly less.
pub fn enough_stock(stock: PostgresInt, quantity: u32) -> (r: bool)
    ensures
        r == is_enough_stock(stock as int, quantity as int),
{
    (quantity as i64) < (stock as i64)
}

/// Decides what setting `quantity` for a book with `stock` copies writes.
pub fn quantity_change(stock: PostgresInt, quantity: u32) -> (r: Result<CartChange, CartError>)
    ensures
        r == quantity_change_spec(stock, quantity),
        r matches Ok(CartChange::Put(q)) ==> 0 < q == quantity && q < stock,
{
    if !enough_stock(stock, quantity) {
        Err(CartError::NotEnoughStock)
    } else if quantity == 0 {
        Ok(CartChange::Remove)
    } else {
        Ok(CartChange::Put(quantity as i32))
    }
}

/// Putting a line with a positive quantity keeps the cart table well formed.
pub proof fn lemma_with_line_wf(t: Tables, customer_id: i32, isbn: i32, quantity: i32)
    requires
        t.wf(),
        quantity > 0,
    ensures
        t.with_line(customer_id, isbn, quantity).wf(),
        t.with_line(customer_id, isbn, quantity).quantity_in_cart(customer_id, isbn) == Some(
            quantity,
        ),
{
    let p = is_line(customer_id, isbn);
    lemma_first_from(t.cart, p, 0);
    let at = t.line_position(customer_id, isbn);
    let after = t.with_line(customer_id, isbn, quantity);
    let line = CartLine { customer_id, isbn, quantity };
    assert(cart_wf(after.cart)) by {
        if at < t.cart.len() {
            assert(p(t.cart[at]));
        } else {
            assert forall|i: int| 0 <= i < t.cart.len() implies (#[trigger] t.cart[i]).customer_id
                != customer_id || t.cart[i].isbn != isbn by {
                assert(!p(t.cart[i]));
            }
        }
    }
    assert(after.line_position(customer_id, isbn) == at) by {
        assert(p(after.cart[at]));
        assert forall|i: int| 0 <= i < at implies !p(#[trigger] after.cart[i]) by {
            assert(after.cart[i] == t.cart[i]);
        }
        crate::db::search::lemma_first_index_is(after.cart, p, at);
    }
}

/// Deleting a line keeps the cart table well formed, and the line is gone.
pub proof fn lemma_without_line_wf(t: Tables, customer_id: i32, isbn: i32)
    requires
        t.wf(),
    ensures
        t.without_line(customer_id, isbn).wf(),
        t.without_line(customer_id, isbn).quantity_in_cart(customer_id, isbn) is None,
{
    let p = is_line(customer_id, isbn);
    lemma_first_from(t.cart, p, 0);
    let at = t.line_position(customer_id, isbn);
    let after = t.without_line(customer_id, isbn);
    if at < t.cart.len() {
        assert forall|i: int| 0 <= i < after.cart.len() implies #[trigger] after.cart[i] == t.cart[if i
            < at {
            i
        } else {
            i + 1
        }] by {}
        assert(cart_wf(after.cart));
        assert(p(t.cart[at]));
        assert forall|i: int| 0 <= i < after.cart.len() implies !p(#[trigger] after.cart[i]) by {
            if i < at {
                assert(!p(t.cart[i]));
            } else {
                assert(after.cart[i] == t.cart[i + 1]);
            }
        }
        crate::db::search::lemma_first_index_is(after.cart, p, after.cart.len() as int);
    }
}

/// The lines kept from a well-formed cart table are well formed.
proof fn lemma_kept_from_wf(cart: Seq<CartLine>, p: spec_fn(CartLine) -> bool, from: int)
    requires
        cart_wf(cart),
        0 <= from <= cart.len(),
    ensures
        cart_wf(selected_from(cart, p, whole_row(), from)),
    decreases cart.len() - from,
{
    let id = whole_row::<CartLine>();
    if from < cart.len() {
        lemma_kept_from_wf(cart, p, from + 1);
        lemma_selected_from_source(cart, p, id, from + 1);
        let rest = selected_from(cart, p, id, from + 1);
        let all = selected_from(cart, p, id, from);
        if p(cart[from]) {
            assert(all[0] == cart[from]);
            assert forall|k: int| 0 <= k < rest.len() implies #[trigger] all[k + 1] == rest[k] by {}
            assert forall|k: int| 0 <= k < rest.len() implies !((#[trigger] rest[k]).customer_id
                == cart[from].customer_id && rest[k].isbn == cart[from].isbn) && rest[k].quantity
                > 0 by {
                assert(made_of(cart, p, id, from + 1, rest[k]));
                let j = choose|j: int|
                    from + 1 <= j < cart.len() && p(#[trigger] cart[j]) && rest[k] == id(cart[j]);
                assert(rest[k] == cart[j]);
            }
            assert forall|i: int, j: int| 0 <= i < j < all.len() implies !((#[trigger] all[i]).customer_id
                == (#[trigger] all[j]).customer_id && all[i].isbn == all[j].isbn) by {
                assert(all[j] == rest[j - 1]);
                if i > 0 {
                    assert(all[i] == rest[i - 1]);
                }
            }
            assert forall|i: int| 0 <= i < all.len() implies (#[trigger] all[i]).quantity > 0 by {
                if i > 0 {
                    assert(all[i] == rest[i - 1]);
                }
            }
        }
    }
}

/// Emptying a customer's cart keeps the tables well formed and leaves the customer
/// with an empty cart.
pub proof fn lemma_without_cart(t: Tables, customer_id: i32)
    requires
        t.wf(),
    ensures
        t.without_cart(customer_id).wf(),
        t.without_cart(customer_id).cart_of(customer_id) == Seq::<(ISBN, u32)>::empty(),
{
    let keep = of_another(customer_id);
    let id = whole_row::<CartLine>();
    lemma_kept_from_wf(t.cart, keep, 0);
    let after = t.without_cart(customer_id);
    lemma_selected_from_source(t.cart, keep, id, 0);
    assert forall|j: int| 0 <= j < after.cart.len() implies !of_customer(customer_id)(
        #[trigger] after.cart[j],
    ) by {
        assert(made_of(t.cart, keep, id, 0, after.cart[j]));
    }
    lemma_selected_from_none(after.cart, of_customer(customer_id), line_entry(), 0);
}

/// The lines of a customer's cart: each book with its quantity, a negative stored
/// quantity counted as zero.
pub fn get_customer_cart(store: &Store, customer_id: PostgresInt) -> (r: Result<
    Vec<(ISBN, u32)>,
    StorageError,
>)
    ensures
        r matches Ok(lines) && lines@ == store@.cart_of(customer_id),
{
    let mut lines: Vec<(ISBN, u32)> = Vec::new();
    let mut i: usize = 0;
    while i < store.cart.len()
        invariant
            i <= store.cart.len(),
            lines@ + selected_from(store.cart@, of_customer(customer_id), line_entry(), i as int)
                == store@.cart_of(customer_id),
        decreases store.cart.len() - i,
    {
        let line = store.cart[i];
        if line.customer_id == customer_id {
            let ghost before = lines@;
            lines.push((line.isbn, clamp_quantity(line.quantity)));
            proof {
                let rest = selected_from(
                    store.cart@,
                    of_customer(customer_id),
                    line_entry(),
                    i as int + 1,
                );
                assert(lines@ + rest =~= before + (seq![line_entry()(line)] + rest));
            }
        }
        i = i + 1;
    }
    proof {
        assert(lines@ + Seq::<(ISBN, u32)>::empty() =~= lines@);
    }
    Ok(lines)
}

/// Where the customer's line for a book stands, if there is one.
fn find_line(store: &Store, customer_id: i32, isbn: i32) -> (r: Option<usize>)
    ensures
        match r {
            Some(at) => at == store@.line_position(customer_id, isbn) && at < store@.cart.len(),
            None => store@.line_position(customer_id, isbn) == store@.cart.len(),
        },
{
    let mut i: usize = 0;
    while i < store.cart.len()
        invariant
            i <= store.cart.len(),
            store@.line_position(customer_id, isbn) == first_from(
                store.cart@,
                is_line(customer_id, isbn),
                i as int,
            ),
        decreases store.cart.len() - i,
    {
        if store.cart[i].customer_id == customer_id && store.cart[i].isbn == isbn {
            return Some(i);
        }
        i = i + 1;
    }
    None
}

/// Writes a change of quantity to the cart table.
fn write_change(store: &mut Store, customer_id: i32, isbn: i32, change: CartChange)
    ensures
        final(store)@ == old(store)@.with_change(customer_id, isbn, change),
{
    let found = find_line(store, customer_id, isbn);
    match change {
        CartChange::Remove => {
            if let Some(at) = found {
                store.cart.remove(at);
            }
        },
        CartChange::Put(quantity) => {
            let line = CartLine { customer_id, isbn, quantity };
            match found {
                Some(at) => {
                    store.cart[at] = line;
                },
                None => {
                    store.cart.push(line);
                },
            }
        },
    }
}

/// Adds one copy of a book to a customer's cart, whatever the stock.
pub fn add_to_cart(store: &mut Store, customer_id: PostgresInt, isbn: ISBN) -> (r: Result<
    (),
    StorageError,
>)
    requires
        old(store)@.wf(),
    ensures
        (final(store)@, r) == old(store)@.add_to_cart(customer_id, isbn),
        final(store)@.wf(),
{
    let quantity = match find_line(store, customer_id, isbn) {
        Some(at) => {
            let stored = store.cart[at].quantity;
            if stored == i32::MAX {
                return Err(StorageError::OutOfRange);
            }
            stored + 1
        },
        None => 1,
    };
    proof {
        lemma_with_line_wf(store@, customer_id, isbn, quantity);
    }
    write_change(store, customer_id, isbn, CartChange::Put(quantity));
    Ok(())
}

/// Whether the stock of a book is enough for `quantity` copies. A book that the
/// catalogue lacks is a storage error.
pub fn check_enough_stock(store: &Store, isbn: ISBN, quantity: u32) -> (r: Result<
    bool,
    StorageError,
>)
    ensures
        r == match store@.stock_of(isbn) {
            Some(stock) => Ok::<bool, StorageError>(is_enough_stock(stock as int, quantity as int)),
            None => Err(StorageError::RowNotFound),
        },
{
    match store.find_book(isbn) {
        Some(at) => Ok(enough_stock(store.books[at].stock, quantity)),
        None => Err(StorageError::RowNotFound),
    }
}

/// Sets the quantity of a book in a customer's cart. The quantity must be strictly
/// below the book's stock, else the call fails with `NotEnoughStock` and the cart
/// stays as it was. Zero deletes the line. The stock itself never changes.
pub fn cart_set_book_quantity(
    store: &mut Store,
    customer_id: PostgresInt,
    isbn: ISBN,
    quantity: u32,
) -> (r: Result<(), CartError>)
    requires
        old(store)@.wf(),
    ensures
        (final(store)@, r) == old(store)@.set_quantity(customer_id, isbn, quantity),
        final(store)@.wf(),
        final(store)@.books == old(store)@.books,
        r is Err ==> final(store)@ == old(store)@,
        r is Ok && quantity == 0 ==> final(store)@.quantity_in_cart(customer_id, isbn) is None,
        r is Ok && quantity > 0 ==> final(store)@.quantity_in_cart(customer_id, isbn) == Some(
            quantity as i32,
        ),
{
    let stock = match store.find_book(isbn) {
        Some(at) => store.books[at].stock,
        None => {
            return Err(CartError::DBError(StorageError::RowNotFound));
        },
    };
    let change = match quantity_change(stock, quantity) {
        Ok(change) => change,
        Err(e) => {
            return Err(e);
        },
    };
    proof {
        match change {
            CartChange::Remove => lemma_without_line_wf(store@, customer_id, isbn),
            CartChange::Put(q) => lemma_with_line_wf(store@, customer_id, isbn, q),
        }
    }
    write_change(store, customer_id, isbn, change);
    Ok(())
}

/// Deletes every line of a customer's cart.
pub fn clear_cart(store: &mut Store, customer_id: PostgresInt) -> (r: Result<(), StorageError>)
    requires
        old(store)@.wf(),
    ensures
        r is Ok,
        final(store)@ == old(store)@.without_cart(customer_id),
        final(store)@.wf(),
        final(store)@.cart_of(customer_id) == Seq::<(ISBN, u32)>::empty(),
{
    let mut rest: Vec<CartLine> = Vec::new();
    let mut i: usize = 0;
    while i < store.cart.len()
        invariant
            i <= store.cart.len(),
            rest@ + selected_from(store.cart@, of_another(customer_id), whole_row(), i as int) == kept(
                store.cart@,
                of_another(customer_id),
            ),
        decreases store.cart.len() - i,
    {
        let line = store.cart[i];
        if line.customer_id != customer_id {
            let ghost before = rest@;
            rest.push(line);
            proof {
                let tail = selected_from(
                    store.cart@,
                    of_another(customer_id),
                    whole_row(),
                    i as int + 1,
                );
                assert(rest@ + tail =~= before + (seq![whole_row::<CartLine>()(line)] + tail));
            }
        }
        i = i + 1;
    }
    proof {
        assert(rest@ + Seq::<CartLine>::empty() =~= rest@);
        lemma_without_cart(store@, customer_id);
    }
    store.cart = rest;
    Ok(())
}

} // verus!
