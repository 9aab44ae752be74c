//! What holds of the store whatever is asked of it.

use vstd::prelude::*;
use crate::calendar::Date;
use crate::db::cart::{lemma_with_line_wf, lemma_without_cart, lemma_without_line_wf, CartChange};
use crate::db::error::{CartError, OrderError};
use crate::db::order::{first_fault, take_stock, lemma_take_stock_wf};
use crate::db::search::{first_index, lemma_first_from, lemma_first_index_is};
use crate::db::store::{
    address_number,
    books_wf,
    has_isbn,
    lemma_numbered_push,
    numbered,
    order_number,
    payment_number,
    Tables,
};
use crate::schema::entities::{Book, PostgresInt, ISBN};
use crate::schema::no_id::{Address, PaymentInfo};

verus! {

/// Whether no book has a negative stock.
pub open spec fn no_negative_stock(t: Tables) -> bool {
    forall|isbn: i32| (#[trigger] t.stock_of(isbn)) matches Some(stock) ==> stock >= 0
}

/// Well-formed tables hold no negative stock.
pub proof fn lemma_wf_no_negative_stock(t: Tables)
    requires
        t.wf(),
    ensures
        no_negative_stock(t),
{
    assert forall|isbn: i32| #[trigger] t.stock_of(isbn) is Some implies t.stock_of(isbn)->0
        >= 0 by {
        lemma_first_from(t.books, has_isbn(isbn), 0);
    }
}

/// Resolving an address keeps the tables well formed.
pub proof fn lemma_resolve_address_wf(t: Tables, address: Address)
    requires
        t.wf(),
    ensures
        t.resolve_address(address).0.wf(),
{
    let after = t.resolve_address(address).0;
    if after != t {
        lemma_numbered_push(t.addresses, address_number(), after.addresses.last());
        assert(after.addresses =~= t.addresses.push(after.addresses.last()));
    }
}

/// Stock monotonicity, for a change of quantity: the stock stays exactly as it
/// was, the tables stay well formed, and a refusal changes nothing. The call is
/// refused for want of stock exactly when the quantity is not strictly below the
/// stock.
pub proof fn lemma_set_quantity_keeps_stock(t: Tables, customer_id: i32, isbn: i32, quantity: u32)
    requires
        t.wf(),
    ensures
        t.set_quantity(customer_id, isbn, quantity).0.wf(),
        t.set_quantity(customer_id, isbn, quantity).0.books == t.books,
        t.set_quantity(customer_id, isbn, quantity).1 is Err ==> t.set_quantity(
            customer_id,
            isbn,
            quantity,
        ).0 == t,
        t.set_quantity(customer_id, isbn, quantity).1 == Err::<(), CartError>(
            CartError::NotEnoughStock,
        ) <==> (t.stock_of(isbn) matches Some(stock) && quantity >= stock),
{
    if t.set_quantity(customer_id, isbn, quantity).1 is Ok {
        if quantity == 0 {
            lemma_without_line_wf(t, customer_id, isbn);
        } else {
            lemma_with_line_wf(t, customer_id, isbn, quantity as i32);
        }
    }
}

/// Cart zero-deletion: where the book has stock, setting its quantity to zero
/// succeeds and leaves the customer without a line for it. No stored line ever
/// holds zero: that is part of `wf`.
pub proof fn lemma_zero_quantity_deletes(t: Tables, customer_id: i32, isbn: i32)
    requires
        t.wf(),
    ensures
        t.set_quantity(customer_id, isbn, 0).0.wf(),
        t.set_quantity(customer_id, isbn, 0).1 is Ok <==> (t.stock_of(isbn) matches Some(stock)
            && stock > 0),
        t.set_quantity(customer_id, isbn, 0).1 is Ok ==> t.set_quantity(
            customer_id,
            isbn,
            0,
        ).0.quantity_in_cart(customer_id, isbn) is None,
{
    lemma_set_quantity_keeps_stock(t, customer_id, isbn, 0);
    lemma_without_line_wf(t, customer_id, isbn);
}

/// Taking stock never raises the stock of a book and never makes a book appear or
/// disappear.
pub proof fn lemma_take_stock_lowers(books: Seq<Book>, lines: Seq<(ISBN, u32)>, from: int)
    requires
        books_wf(books),
        0 <= from,
        take_stock(books, lines, from) is Some,
    ensures
        take_stock(books, lines, from)->0.len() == books.len(),
        forall|i: int|
            0 <= i < books.len() ==> (#[trigger] take_stock(books, lines, from)->0[i]).isbn
                == books[i].isbn && 0 <= take_stock(books, lines, from)->0[i].stock
                <= books[i].stock,
    decreases lines.len() - from,
{
    if from < lines.len() {
        let at = first_index(books, has_isbn(lines[from].0));
        lemma_first_from(books, has_isbn(lines[from].0), 0);
        let next = books.update(at, books[at].with_stock((books[at].stock - lines[from].1) as i32));
        assert forall|i: int| 0 <= i < next.len() implies (#[trigger] next[i]).isbn == books[i].isbn
            && 0 <= next[i].stock <= books[i].stock by {}
        assert(books_wf(next));
        lemma_take_stock_lowers(next, lines, from + 1);
        let last = take_stock(books, lines, from)->0;
        assert forall|i: int| 0 <= i < books.len() implies (#[trigger] last[i]).isbn
            == books[i].isbn && 0 <= last[i].stock <= books[i].stock by {
            assert(last[i].isbn == next[i].isbn);
        }
    }
}

/// Placing an order keeps the tables well formed, whether it succeeds or not.
pub proof fn lemma_order_keeps_wf(
    before: Tables,
    after: Tables,
    customer_id: i32,
    lines: Seq<(ISBN, u32)>,
    address: Option<Address>,
    payment_info: Option<PaymentInfo>,
    tracking_number: Seq<char>,
    order_date: Date,
    r: Result<PostgresInt, OrderError>,
)
    requires
        before.wf(),
        before.order_placed(
            after,
            customer_id,
            lines,
            address,
            payment_info,
            tracking_number,
            order_date,
            r,
        ),
    ensures
        after.wf(),
{
    let plan = before.plan_order(customer_id, lines, address, payment_info);
    assert(numbered(plan.addresses, address_number())) by {
        if address is Some {
            lemma_resolve_address_wf(before, address->0);
        }
        let shipped = Tables { addresses: before.plan_shipping(customer_id, address).0, ..before };
        if payment_info is Some {
            lemma_resolve_address_wf(shipped, payment_info->0.billing_address);
        }
    }
    assert(numbered(after.payment_infos, payment_number())) by {
        if plan.new_payment_billed_to is Some {
            lemma_numbered_push(before.payment_infos, payment_number(), after.payment_infos.last());
            assert(after.payment_infos =~= before.payment_infos.push(after.payment_infos.last()));
        }
    }
    match plan.verdict {
        Err(_) => {},
        Ok(commit) => {
            lemma_numbered_push(before.orders, order_number(), after.orders.last());
            assert(after.orders =~= before.orders.push(after.orders.last()));
            lemma_take_stock_wf(before.books, lines, 0);
            lemma_without_cart(before, customer_id);
        },
    }
}

/// Stock monotonicity, for an order: afterwards no stock is negative and none has
/// risen; an order that is not placed leaves every stock as it was; and an order
/// whose lines cannot all be taken out of stock is not placed.
pub proof fn lemma_order_keeps_stock(
    before: Tables,
    after: Tables,
    customer_id: i32,
    lines: Seq<(ISBN, u32)>,
    address: Option<Address>,
    payment_info: Option<PaymentInfo>,
    tracking_number: Seq<char>,
    order_date: Date,
    r: Result<PostgresInt, OrderError>,
)
    requires
        before.wf(),
        before.order_placed(
            after,
            customer_id,
            lines,
            address,
            payment_info,
            tracking_number,
            order_date,
            r,
        ),
    ensures
        books_wf(after.books),
        no_negative_stock(after),
        after.books.len() == before.books.len(),
        forall|i: int|
            0 <= i < before.books.len() ==> (#[trigger] after.books[i]).isbn == before.books[i].isbn
                && 0 <= after.books[i].stock <= before.books[i].stock,
        r is Err ==> after.books == before.books,
        take_stock(before.books, lines, 0) is None ==> r is Err,
        first_fault(before.books, lines, 0) == Some(crate::db::order::Fault::NotEnoughStock) ==> r
            == Err::<PostgresInt, OrderError>(OrderError::NotEnoughStock),
{
    lemma_order_keeps_wf(
        before,
        after,
        customer_id,
        lines,
        address,
        payment_info,
        tracking_number,
        order_date,
        r,
    );
    lemma_wf_no_negative_stock(after);
    let plan = before.plan_order(customer_id, lines, address, payment_info);
    if plan.verdict is Ok {
        lemma_take_stock_lowers(before.books, lines, 0);
    }
}

/// Order atomicity: where the validation of any line fails, the order is not
/// placed and the tables are exactly what they were: no order row, no line item,
/// no change of stock, and the cart untouched.
pub proof fn lemma_order_is_atomic(
    before: Tables,
    after: Tables,
    customer_id: i32,
    lines: Seq<(ISBN, u32)>,
    address: Option<Address>,
    payment_info: Option<PaymentInfo>,
    tracking_number: Seq<char>,
    order_date: Date,
    r: Result<PostgresInt, OrderError>,
)
    requires
        first_fault(before.books, lines, 0) is Some,
        before.order_placed(
            after,
            customer_id,
            lines,
            address,
            payment_info,
            tracking_number,
            order_date,
            r,
        ),
    ensures
        r is Err,
        after == before,
{
}

/// An order that is not placed, for whatever reason, stores nothing for the order:
/// books, carts, orders and line items are what they were.
pub proof fn lemma_failed_order_stores_nothing(
    before: Tables,
    after: Tables,
    customer_id: i32,
    lines: Seq<(ISBN, u32)>,
    address: Option<Address>,
    payment_info: Option<PaymentInfo>,
    tracking_number: Seq<char>,
    order_date: Date,
    r: Result<PostgresInt, OrderError>,
)
    requires
        r is Err,
        before.order_placed(
            after,
            customer_id,
            lines,
            address,
            payment_info,
            tracking_number,
            order_date,
            r,
        ),
    ensures
        after.books == before.books,
        after.cart == before.cart,
        after.orders == before.orders,
        after.order_lines == before.order_lines,
{
}

/// Cart-clear postcondition: after an order was placed, the customer's cart is
/// empty.
pub proof fn lemma_order_empties_cart(
    before: Tables,
    after: Tables,
    customer_id: i32,
    lines: Seq<(ISBN, u32)>,
    address: Option<Address>,
    payment_info: Option<PaymentInfo>,
    tracking_number: Seq<char>,
    order_date: Date,
    r: Result<PostgresInt, OrderError>,
)
    requires
        before.wf(),
        r is Ok,
        before.order_placed(
            after,
            customer_id,
            lines,
            address,
            payment_info,
            tracking_number,
            order_date,
            r,
        ),
    ensures
        after.cart_of(customer_id) == Seq::<(ISBN, u32)>::empty(),
{
    lemma_without_cart(before, customer_id);
}

/// Whether `after` is `before` after one change of quantity, accepted or refused.
pub open spec fn quantity_was_set(before: Tables, after: Tables) -> bool {
    exists|customer_id: i32, isbn: i32, quantity: u32|
        after == (#[trigger] before.set_quantity(customer_id, isbn, quantity)).0
}

/// Whether `after` is `before` after one attempt to place an order.
pub open spec fn order_was_attempted(before: Tables, after: Tables) -> bool {
    exists|
        customer_id: i32,
        lines: Seq<(ISBN, u32)>,
        address: Option<Address>,
        payment_info: Option<PaymentInfo>,
        tracking_number: Seq<char>,
        order_date: Date,
        r: Result<PostgresInt, OrderError>,
    |
        #[trigger] before.order_placed(
            after,
            customer_id,
            lines,
            address,
            payment_info,
            tracking_number,
            order_date,
            r,
        )
}

/// Stock monotonicity, for every run: whatever changes of quantity and orders
/// follow one another from well-formed tables, no stock is ever negative.
pub proof fn lemma_stock_never_negative(trace: Seq<Tables>)
    requires
        trace.len() > 0,
        trace[0].wf(),
        forall|i: int|
            0 <= i < trace.len() - 1 ==> quantity_was_set(#[trigger] trace[i], trace[i + 1])
                || order_was_attempted(trace[i], trace[i + 1]),
    ensures
        forall|i: int| 0 <= i < trace.len() ==> (#[trigger] trace[i]).wf() && no_negative_stock(trace[i]),
    decreases trace.len(),
{
    if trace.len() == 1 {
        lemma_wf_no_negative_stock(trace[0]);
    } else {
        let shorter = trace.drop_last();
        assert forall|i: int| 0 <= i < shorter.len() - 1 implies quantity_was_set(
            #[trigger] shorter[i],
            shorter[i + 1],
        ) || order_was_attempted(shorter[i], shorter[i + 1]) by {
            assert(shorter[i] == trace[i]);
            assert(shorter[i + 1] == trace[i + 1]);
        }
        lemma_stock_never_negative(shorter);
        let k = trace.len() - 2;
        let before = trace[k];
        let after = trace[k + 1];
        assert(before == shorter[k]);
        assert(before.wf());
        if quantity_was_set(before, after) {
            let (customer_id, isbn, quantity) = choose|customer_id: i32, isbn: i32, quantity: u32|
                after == (#[trigger] before.set_quantity(customer_id, isbn, quantity)).0;
            lemma_set_quantity_keeps_stock(before, customer_id, isbn, quantity);
        } else {
            let (customer_id, lines, address, payment_info, tracking_number, order_date, r) = choose|
                customer_id: i32,
                lines: Seq<(ISBN, u32)>,
                address: Option<Address>,
                payment_info: Option<PaymentInfo>,
                tracking_number: Seq<char>,
                order_date: Date,
                r: Result<PostgresInt, OrderError>,
            |
                #[trigger] before.order_placed(
                    after,
                    customer_id,
                    lines,
                    address,
                    payment_info,
                    tracking_number,
                    order_date,
                    r,
                );
            lemma_order_keeps_wf(
                before,
                after,
                customer_id,
                lines,
                address,
                payment_info,
                tracking_number,
                order_date,
                r,
            );
        }
        lemma_wf_no_negative_stock(after);
        assert forall|i: int| 0 <= i < trace.len() implies (#[trigger] trace[i]).wf()
            && no_negative_stock(trace[i]) by {
            if i < shorter.len() {
                assert(trace[i] == shorter[i]);
            }
        }
    }
}

} // verus!
