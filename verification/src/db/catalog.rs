//! The catalogue: the books the store sells and who publishes them.

use vstd::prelude::*;
use vstd::string::*;
use crate::db::error::StorageError;
use crate::db::identity::try_add_address;
use crate::db::search::{first_index, lemma_first_from, selected, selected_from};
use crate::db::store::{
    books_wf,
    copy_books,
    has_isbn,
    lemma_numbered_push,
    publisher_number,
    row_numbered,
    Store,
    Tables,
};
use crate::schema::entities::{Book, BookWithPublisherName, PostgresInt, Publisher, ISBN};
use crate::schema::no_id::Address;

verus! {

/// The condition "the publisher of this book is on record".
pub open spec fn has_publisher(publishers: Seq<Publisher>) -> spec_fn(Book) -> bool {
    |book: Book| row_numbered(publishers, book.publisher) is Some
}

/// A book with the name of its publisher beside it.
pub open spec fn with_publisher_name(publishers: Seq<Publisher>) -> spec_fn(Book) -> BookWithPublisherName {
    |book: Book| BookWithPublisherName::of(book, publishers[book.publisher - 1].company_name)
}

/// The books with the discontinued flag of every listed one set to `flag`.
pub open spec fn flagged(books: Seq<Book>, isbns: Seq<ISBN>, flag: bool) -> Seq<Book> {
    Seq::new(
        books.len(),
        |i: int|
            if isbns.contains(books[i].isbn) {
                books[i].with_discontinued(flag)
            } else {
                books[i]
            },
    )
}

impl Tables {
    /// What adding a book to the catalogue does. A book whose ISBN is taken is
    /// refused as a duplicate, one with a negative stock as out of range, and both
    /// leave the tables as they were.
    pub open spec fn insert_book(self, book: Book) -> (Tables, Result<(), StorageError>) {
        if self.stock_of(book.isbn) is Some {
            (self, Err(StorageError::DuplicateKey))
        } else if book.stock < 0 {
            (self, Err(StorageError::OutOfRange))
        } else {
            (Tables { books: self.books.push(book), ..self }, Ok(()))
        }
    }

    /// The catalogue as customers browse it: every book whose publisher is on
    /// record, with the publisher's name.
    pub open spec fn books_with_publisher_name(self) -> Seq<BookWithPublisherName> {
        selected(self.books, has_publisher(self.publishers), with_publisher_name(self.publishers))
    }
}

/// Every book of the catalogue.
pub fn get_books(store: &Store) -> (r: Result<Vec<Book>, StorageError>)
    ensures
        r matches Ok(books) && books@ == store@.books,
{
    Ok(copy_books(&store.books))
}

/// The stock of a book. A book that the catalogue lacks is a storage error: no
/// stock is made up for it.
pub fn get_stock(store: &Store, isbn: ISBN) -> (r: Result<PostgresInt, StorageError>)
    ensures
        r == match store@.stock_of(isbn) {
            Some(stock) => Ok::<PostgresInt, StorageError>(stock),
            None => Err(StorageError::RowNotFound),
        },
{
    match store.find_book(isbn) {
        Some(at) => Ok(store.books[at].stock),
        None => Err(StorageError::RowNotFound),
    }
}

/// Every book whose publisher is on record, with the publisher's name.
pub fn get_books_with_publisher_name(store: &Store) -> (r: Result<
    Vec<BookWithPublisherName>,
    StorageError,
>)
    ensures
        r matches Ok(books) && books@ == store@.books_with_publisher_name(),
{
    let mut out: Vec<BookWithPublisherName> = Vec::new();
    let mut i: usize = 0;
    while i < store.books.len()
        invariant
            i <= store.books.len(),
            out@ + selected_from(
                store.books@,
                has_publisher(store.publishers@),
                with_publisher_name(store.publishers@),
                i as int,
            ) == store@.books_with_publisher_name(),
        decreases store.books.len() - i,
    {
        let book = &store.books[i];
        if 1 <= book.publisher && book.publisher as usize <= store.publishers.len() {
            let publisher = &store.publishers[(book.publisher - 1) as usize];
            let ghost before = out@;
            let joined = BookWithPublisherName::new(
                book.isbn,
                book.title.clone(),
                book.author_name.clone(),
                book.genre.clone(),
                book.publisher,
                publisher.company_name.clone(),
                book.num_pages,
                book.price,
                book.author_royalties,
                book.reorder_threshold,
                book.stock,
                book.discontinued,
            );
            out.push(joined);
            proof {
                let rest = selected_from(
                    store.books@,
                    has_publisher(store.publishers@),
                    with_publisher_name(store.publishers@),
                    i as int + 1,
                );
                assert(joined == with_publisher_name(store.publishers@)(*book));
                assert(out@ + rest =~= before + (seq![joined] + rest));
            }
        }
        i = i + 1;
    }
    proof {
        assert(out@ + Seq::<BookWithPublisherName>::empty() =~= out@);
    }
    Ok(out)
}

/// Adds a book to the catalogue.
pub fn create_book(store: &mut Store, book: Book) -> (r: Result<(), StorageError>)
    requires
        old(store)@.wf(),
    ensures
        (final(store)@, r) == old(store)@.insert_book(book),
        final(store)@.wf(),
{
    if store.find_book(book.isbn).is_some() {
        return Err(StorageError::DuplicateKey);
    }
    if book.stock < 0 {
        return Err(StorageError::OutOfRange);
    }
    proof {
        lemma_first_from(store@.books, has_isbn(book.isbn), 0);
        let after = store@.books.push(book);
        assert forall|i: int, j: int| 0 <= i < j < after.len() implies (#[trigger] after[i]).isbn != (
        #[trigger] after[j]).isbn by {
            if j == store@.books.len() {
                assert(!has_isbn(book.isbn)(store@.books[i]));
            }
        }
        assert(books_wf(after));
    }
    store.books.push(book);
    Ok(())
}

fn listed(isbns: &Vec<ISBN>, isbn: ISBN) -> (r: bool)
    ensures
        r == isbns@.contains(isbn),
{
    let mut i: usize = 0;
    while i < isbns.len()
        invariant
            i <= isbns.len(),
            forall|j: int| 0 <= j < i ==> isbns@[j] != isbn,
        decreases isbns.len() - i,
    {
        if isbns[i] == isbn {
            return true;
        }
        i = i + 1;
    }
    false
}

fn set_discontinued(store: &mut Store, isbns: &Vec<ISBN>, flag: bool)
    requires
        old(store)@.wf(),
    ensures
        final(store)@ == (Tables { books: flagged(old(store)@.books, isbns@, flag), ..old(store)@ }),
        final(store)@.wf(),
{
    let mut i: usize = 0;
    while i < store.books.len()
        invariant
            i <= store.books.len(),
            store.books@.len() == old(store)@.books.len(),
            store@ == (Tables { books: store.books@, ..old(store)@ }),
            forall|j: int|
                0 <= j < i ==> #[trigger] store.books@[j] == flagged(old(store)@.books, isbns@, flag)[j],
            forall|j: int| i <= j < store.books@.len() ==> #[trigger] store.books@[j] == old(store)@.books[j],
        decreases store.books.len() - i,
    {
        if listed(isbns, store.books[i].isbn) {
            store.books[i].discontinued = flag;
        }
        i = i + 1;
    }
    proof {
        assert(store.books@ =~= flagged(old(store)@.books, isbns@, flag));
        let after = store.books@;
        assert forall|j: int| 0 <= j < after.len() implies (#[trigger] after[j]).isbn == old(
            store,
        )@.books[j].isbn && after[j].stock == old(store)@.books[j].stock by {}
        assert(books_wf(after));
    }
}

/// Takes the listed books out of sale. Books that the catalogue lacks are passed
/// over; stock and carts are not touched.
pub fn discontinue_books(store: &mut Store, isbns: Vec<ISBN>) -> (r: Result<(), StorageError>)
    requires
        old(store)@.wf(),
    ensures
        r is Ok,
        final(store)@ == (Tables { books: flagged(old(store)@.books, isbns@, true), ..old(store)@ }),
        final(store)@.wf(),
{
    set_discontinued(store, &isbns, true);
    Ok(())
}

/// Puts the listed books back on sale.
pub fn undiscontinue_books(store: &mut Store, isbns: Vec<ISBN>) -> (r: Result<(), StorageError>)
    requires
        old(store)@.wf(),
    ensures
        r is Ok,
        final(store)@ == (Tables { books: flagged(old(store)@.books, isbns@, false), ..old(store)@ }),
        final(store)@.wf(),
{
    set_discontinued(store, &isbns, false);
    Ok(())
}

/// Every publisher on record.
pub fn get_publishers(store: &Store) -> (r: Result<Vec<Publisher>, StorageError>)
    ensures
        r matches Ok(publishers) && publishers@ == store@.publishers,
{
    let mut out: Vec<Publisher> = Vec::new();
    let mut i: usize = 0;
    while i < store.publishers.len()
        invariant
            i <= store.publishers.len(),
            out@ == store.publishers@.take(i as int),
        decreases store.publishers.len() - i,
    {
        out.push(store.publishers[i].duplicate());
        proof {
            assert(out@ =~= store.publishers@.take(i as int + 1));
        }
        i = i + 1;
    }
    proof {
        assert(store.publishers@.take(store.publishers@.len() as int) =~= store.publishers@);
    }
    Ok(out)
}

/// Puts a publisher on record, with its address stored as a new row, and returns
/// the publisher's identifier. Where either table is full nothing is stored.
pub fn try_create_publisher(
    store: &mut Store,
    company_name: &str,
    email: &str,
    address: Address,
    phone_number: &str,
    bank_number: &str,
) -> (r: Result<PostgresInt, StorageError>)
    requires
        old(store)@.wf(),
    ensures
        final(store)@.wf(),
        match r {
            Ok(id) => {
                &&& old(store)@.insert_address(address).1 is Ok
                &&& final(store)@ == (Tables {
                    publishers: final(store)@.publishers,
                    ..old(store)@.insert_address(address).0
                })
                &&& final(store)@.publishers.len() == old(store)@.publishers.len() + 1
                &&& final(store)@.publishers.drop_last() == old(store)@.publishers
                &&& id == final(store)@.publishers.len()
                &&& final(store)@.publishers.last().publisher_id == id
                &&& final(store)@.publishers.last().company_name@ == company_name@
                &&& final(store)@.publishers.last().email@ == email@
                &&& final(store)@.publishers.last().phone_number@ == phone_number@
                &&& final(store)@.publishers.last().bank_number@ == bank_number@
                &&& final(store)@.publishers.last().address_id == final(store)@.addresses.len()
            },
            Err(e) => {
                &&& e == StorageError::OutOfRange
                &&& final(store)@ == old(store)@
                &&& old(store)@.publishers.len() >= i32::MAX || old(store)@.addresses.len()
                    >= i32::MAX
            },
        },
{
    if store.publishers.len() >= i32::MAX as usize {
        return Err(StorageError::OutOfRange);
    }
    let address_id = match try_add_address(store, address) {
        Ok(id) => id,
        Err(e) => {
            return Err(e);
        },
    };
    let publisher_id = (store.publishers.len() + 1) as i32;
    let publisher = Publisher::new(
        publisher_id,
        company_name.to_owned(),
        email.to_owned(),
        phone_number.to_owned(),
        bank_number.to_owned(),
        address_id,
    );
    proof {
        lemma_numbered_push(store@.publishers, publisher_number(), publisher);
    }
    store.publishers.push(publisher);
    proof {
        assert(store@.publishers.drop_last() =~= old(store)@.publishers);
    }
    Ok(publisher_id)
}

} // verus!
