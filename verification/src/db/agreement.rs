//! The order engine against the tables: when every question the engine asks about
//! stock is answered as the catalogue has it, the engine decides what the tables
//! say it must.

use vstd::prelude::*;
use crate::db::cart::is_enough_stock;
use crate::db::engine::{OrderProgress, OrderReply, Step};
use crate::db::error::StorageError;
use crate::db::order::{first_fault, take_stock, Fault};
use crate::db::search::{first_index, lemma_first_from};
use crate::db::store::{has_isbn, Tables};
use crate::schema::entities::{Book, ISBN};
use crate::schema::no_id::Address;

verus! {

/// What a catalogue answers when asked for the stock of a book.
pub open spec fn stock_answer(books: Seq<Book>, isbn: ISBN) -> OrderReply {
    let at = first_index(books, has_isbn(isbn));
    if at < books.len() {
        OrderReply::Stock(books[at].stock)
    } else {
        OrderReply::Failed(StorageError::RowNotFound)
    }
}

/// What a catalogue answers when asked to take a quantity out of the stock of a
/// book, on the condition that the stock is at least the quantity.
pub open spec fn take_answer(books: Seq<Book>, isbn: ISBN, quantity: u32) -> OrderReply {
    let at = first_index(books, has_isbn(isbn));
    if at < books.len() && books[at].stock >= quantity {
        OrderReply::Done
    } else {
        OrderReply::Refused
    }
}

/// The catalogue after it was asked to take a quantity out of the stock of a book.
pub open spec fn after_take(books: Seq<Book>, isbn: ISBN, quantity: u32) -> Seq<Book> {
    let at = first_index(books, has_isbn(isbn));
    if at < books.len() && books[at].stock >= quantity {
        books.update(at, books[at].with_stock((books[at].stock - quantity) as i32))
    } else {
        books
    }
}

/// The attempt after it validated its lines against a catalogue, for at most
/// `rounds` lines.
pub open spec fn validate_against(p: OrderProgress, books: Seq<Book>, rounds: nat) -> OrderProgress
    decreases rounds,
{
    if rounds == 0 {
        p
    } else {
        match p.step {
            Step::Validating { line } => validate_against(
                p.after(stock_answer(books, p.lines[line as int].0)),
                books,
                (rounds - 1) as nat,
            ),
            _ => p,
        }
    }
}

/// The attempt and the catalogue after the attempt stored its line items and took
/// their books out of a catalogue, for at most `rounds` lines.
pub open spec fn take_against(p: OrderProgress, books: Seq<Book>, rounds: nat) -> (
    OrderProgress,
    Seq<Book>,
)
    decreases rounds,
{
    if rounds == 0 {
        (p, books)
    } else {
        match p.step {
            Step::InsertingLine { line, .. } => {
                let asked = p.after(OrderReply::Done);
                let (isbn, quantity) = p.lines[line as int];
                take_against(
                    asked.after(take_answer(books, isbn, quantity)),
                    after_take(books, isbn, quantity),
                    (rounds - 1) as nat,
                )
            },
            _ => (p, books),
        }
    }
}

/// Validation agrees with the tables: an attempt that validates its remaining
/// lines against a catalogue fails with the first fault that the catalogue has
/// for them, and goes on to resolve the shipping address where there is none.
pub proof fn lemma_validation_agrees(p: OrderProgress, books: Seq<Book>, line: usize, rounds: nat)
    requires
        p.wf(),
        p.step == (Step::Validating { line }),
        rounds >= p.lines.len() - line,
    ensures
        validate_against(p, books, rounds) == match first_fault(books, p.lines, line as int) {
            Some(fault) => p.failing(fault),
            None => p.at(p.shipping_step()),
        },
    decreases rounds,
{
    let isbn = p.lines[line as int].0;
    let next = p.after(stock_answer(books, isbn));
    let at = first_index(books, has_isbn(isbn));
    lemma_first_from(books, has_isbn(isbn), 0);
    assert(validate_against(p, books, rounds) == validate_against(
        next,
        books,
        (rounds - 1) as nat,
    ));
    if at >= books.len() {
        assert(next == p.failing(Fault::Storage(StorageError::RowNotFound)));
    } else if !is_enough_stock(books[at].stock as int, p.lines[line as int].1 as int) {
        assert(next == p.failing(Fault::NotEnoughStock));
    } else if line + 1 < p.lines.len() {
        assert(next == p.at(Step::Validating { line: (line + 1) as usize }));
        lemma_validation_agrees(next, books, (line + 1) as usize, (rounds - 1) as nat);
        assert(first_fault(books, p.lines, line as int) == first_fault(
            books,
            next.lines,
            line + 1,
        ));
        match first_fault(books, next.lines, line + 1) {
            Some(fault) => {
                assert(next.failing(fault) == p.failing(fault));
            },
            None => {
                assert(next.at(next.shipping_step()) == p.at(p.shipping_step()));
            },
        }
    } else {
        assert(first_fault(books, p.lines, line + 1) is None);
        assert(next == p.at(p.shipping_step()));
    }
}

/// Taking stock agrees with the tables: an attempt that stores its remaining line
/// items commits exactly when `take_stock` can take every line, and then the
/// catalogue holds the stock that `take_stock` leaves. Where a line cannot be
/// taken the attempt rolls back for want of stock.
pub proof fn lemma_taking_agrees(
    p: OrderProgress,
    books: Seq<Book>,
    order: i32,
    line: usize,
    rounds: nat,
)
    requires
        p.wf(),
        p.step == (Step::InsertingLine { order, line }),
        rounds >= p.lines.len() - line,
    ensures
        match take_stock(books, p.lines, line as int) {
            Some(left) => take_against(p, books, rounds) == (
                p.at(Step::ClearingCart { order }),
                left,
            ),
            None => take_against(p, books, rounds).0 == p.failing(Fault::NotEnoughStock)
                && take_against(p, books, rounds).0.step is RollingBack,
        },
    decreases rounds,
{
    let (isbn, quantity) = p.lines[line as int];
    let asked = p.after(OrderReply::Done);
    let next = asked.after(take_answer(books, isbn, quantity));
    let left = after_take(books, isbn, quantity);
    let at = first_index(books, has_isbn(isbn));
    lemma_first_from(books, has_isbn(isbn), 0);
    assert(asked == p.at(Step::TakingStock { order, line }));
    assert(take_against(p, books, rounds) == take_against(next, left, (rounds - 1) as nat));
    if !(at < books.len() && books[at].stock >= quantity) {
        assert(next == asked.failing(Fault::NotEnoughStock));
        assert(next == p.failing(Fault::NotEnoughStock));
    } else if line + 1 < p.lines.len() {
        assert(next == p.at(Step::InsertingLine { order, line: (line + 1) as usize }));
        lemma_taking_agrees(next, left, order, (line + 1) as usize, (rounds - 1) as nat);
        assert(take_stock(books, p.lines, line as int) == take_stock(left, next.lines, line + 1));
        assert(next.failing(Fault::NotEnoughStock) == p.failing(Fault::NotEnoughStock));
        assert(next.at(Step::ClearingCart { order }) == p.at(Step::ClearingCart { order }));
    } else {
        assert(take_stock(left, p.lines, line + 1) == Some(left));
        assert(next == p.at(Step::ClearingCart { order }));
    }
}

/// What the tables answer when asked to store an address.
pub open spec fn insert_address_answer(t: Tables, address: Address) -> OrderReply {
    match t.insert_address(address).1 {
        Ok(id) => OrderReply::Inserted(id),
        Err(e) => OrderReply::Failed(e),
    }
}

/// The attempt after it looked for an address in the tables and, where there was
/// none, had it stored.
pub open spec fn resolve_against(p: OrderProgress, t: Tables, address: Address) -> OrderProgress {
    match t.find_address(address) {
        Some(id) => p.after(OrderReply::Found(Some(id))),
        None => p.after(OrderReply::Found(None)).after(insert_address_answer(t, address)),
    }
}

/// The attempt after it resolved the shipping address against the tables.
pub open spec fn ship_against(p: OrderProgress, t: Tables) -> OrderProgress {
    match p.step {
        Step::FindingShipping => resolve_against(p, t, p.address->0),
        Step::LoadingShipping => p.after(OrderReply::Customer(t.customer_entity(p.customer_id))),
        _ => p,
    }
}

/// The attempt after it resolved the payment record against the tables.
pub open spec fn pay_against(p: OrderProgress, t: Tables) -> OrderProgress {
    match p.step {
        Step::FindingBilling { .. } => {
            let submitted = p.payment_info->0;
            let billed = resolve_against(p, t, submitted.billing_address);
            let with_address = t.resolve_address(submitted.billing_address).0;
            match billed.step {
                Step::FindingPayment { billing, .. } => match with_address.find_payment_row(
                    submitted,
                    billing,
                ) {
                    Some(id) => billed.after(OrderReply::Found(Some(id))),
                    None => billed.after(OrderReply::Found(None)).after(
                        if t.payment_infos.len() >= i32::MAX {
                            OrderReply::Failed(StorageError::OutOfRange)
                        } else {
                            OrderReply::Inserted((t.payment_infos.len() + 1) as i32)
                        },
                    ),
                },
                _ => billed,
            }
        },
        Step::LoadingPayment { .. } => p.after(
            OrderReply::Customer(t.customer_entity(p.customer_id)),
        ),
        _ => p,
    }
}

/// Resolving the shipping address agrees with the tables: the attempt goes on with
/// the identifier that the tables plan for, or fails with the fault they plan.
pub proof fn lemma_shipping_agrees(p: OrderProgress, t: Tables)
    requires
        p.wf(),
        p.step == p.shipping_step(),
    ensures
        ship_against(p, t) == match t.plan_shipping(p.customer_id, p.address).1 {
            Ok(id) => p.at(p.payment_step(id)),
            Err(fault) => p.failing(fault),
        },
{
}

/// Resolving the payment record agrees with the tables: the attempt goes on to
/// open the transaction with the identifier that the tables plan for, or fails
/// with the fault they plan.
pub proof fn lemma_payment_agrees(p: OrderProgress, t: Tables, shipping: i32)
    requires
        p.wf(),
        p.step == p.payment_step(shipping),
    ensures
        pay_against(p, t) == match t.plan_order_payment(p.customer_id, p.payment_info).result {
            Ok(id) => p.at(Step::Beginning { shipping, payment: id }),
            Err(fault) => p.failing(fault),
        },
{
}

} // verus!
