//! The rows of the store's tables.

use vstd::prelude::*;
use vstd::string::*;
use crate::numeric::Numeric;

verus! {

/// The store's integer column type.
pub type PostgresInt = i32;

/// The store's exact decimal column type.
pub type PostgresNumeric = Numeric;

/// A book's identifier.
pub type ISBN = PostgresInt;

/// A publisher's identifier.
pub type PublisherID = PostgresInt;

/// An owner account, without its password.
#[derive(Clone, Debug, PartialEq, Eq)]
pub struct OwnerLogin {
    pub owner_id: PostgresInt,
    pub email: String,
    pub name: String,
}

/// A customer account, without its password.
#[derive(Clone, Debug, PartialEq, Eq)]
pub struct CustomerLogin {
    pub customer_id: PostgresInt,
    pub email: String,
    pub name: String,
}

/// A publisher.
#[derive(Clone, Debug, PartialEq, Eq)]
pub struct Publisher {
    pub publisher_id: PublisherID,
    pub company_name: String,
    pub email: String,
    pub phone_number: String,
    pub bank_number: String,
    pub address_id: PostgresInt,
}

impl Publisher {
    /// The publisher with the given fields.
    pub fn new(
        publisher_id: PublisherID,
        company_name: String,
        email: String,
        phone_number: String,
        bank_number: String,
        address_id: PostgresInt,
    ) -> (p: Publisher)
        ensures
            p == (Publisher {
                publisher_id,
                company_name,
                email,
                phone_number,
                bank_number,
                address_id,
            }),
    {
        Publisher { publisher_id, company_name, email, phone_number, bank_number, address_id }
    }

    /// A copy of this publisher.
    pub fn duplicate(&self) -> (p: Publisher)
        ensures
            p == *self,
    {
        Publisher {
            publisher_id: self.publisher_id,
            company_name: self.company_name.clone(),
            email: self.email.clone(),
            phone_number: self.phone_number.clone(),
            bank_number: self.bank_number.clone(),
            address_id: self.address_id,
        }
    }
}

/// A book together with the name of its publisher.
#[derive(Clone, Debug, PartialEq, Eq)]
pub struct BookWithPublisherName {
    pub isbn: ISBN,
    pub title: String,
    pub author_name: String,
    pub genre: String,
    pub publisher_id: PostgresInt,
    pub publisher_name: String,
    pub num_pages: PostgresInt,
    pub price: PostgresNumeric,
    pub author_royalties: PostgresNumeric,
    pub reorder_threshold: PostgresInt,
    pub stock: PostgresInt,
    pub discontinued: bool,
}

impl BookWithPublisherName {
    /// The book with the given fields.
    pub fn new(
        isbn: ISBN,
        title: String,
        author_name: String,
        genre: String,
        publisher_id: PostgresInt,
        publisher_name: String,
        num_pages: PostgresInt,
        price: PostgresNumeric,
        author_royalties: PostgresNumeric,
        reorder_threshold: PostgresInt,
        stock: PostgresInt,
        discontinued: bool,
    ) -> (b: BookWithPublisherName)
        ensures
            b == (BookWithPublisherName {
                isbn,
                title,
                author_name,
                genre,
                publisher_id,
                publisher_name,
                num_pages,
                price,
                author_royalties,
                reorder_threshold,
                stock,
                discontinued,
            }),
    {
        BookWithPublisherName {
            isbn,
            title,
            author_name,
            genre,
            publisher_id,
            publisher_name,
            num_pages,
            price,
            author_royalties,
            reorder_threshold,
            stock,
            discontinued,
        }
    }

    /// The book `book` with the name of its publisher beside it.
    pub open spec fn of(book: Book, publisher_name: String) -> BookWithPublisherName {
        BookWithPublisherName {
            isbn: book.isbn,
            title: book.title,
            author_name: book.author_name,
            genre: book.genre,
            publisher_id: book.publisher,
            publisher_name,
            num_pages: book.num_pages,
            price: book.price,
            author_royalties: book.author_royalties,
            reorder_threshold: book.reorder_threshold,
            stock: book.stock,
            discontinued: book.discontinued,
        }
    }

    /// A copy of this book.
    pub fn duplicate(&self) -> (b: BookWithPublisherName)
        ensures
            b == *self,
    {
        BookWithPublisherName {
            isbn: self.isbn,
            title: self.title.clone(),
            author_name: self.author_name.clone(),
            genre: self.genre.clone(),
            publisher_id: self.publisher_id,
            publisher_name: self.publisher_name.clone(),
            num_pages: self.num_pages,
            price: self.price,
            author_royalties: self.author_royalties,
            reorder_threshold: self.reorder_threshold,
            stock: self.stock,
            discontinued: self.discontinued,
        }
    }
}

/// A book of the catalogue.
#[derive(Clone, Debug, PartialEq, Eq)]
pub struct Book {
    pub isbn: ISBN,
    pub title: String,
    pub author_name: String,
    pub genre: String,
    pub publisher: PublisherID,
    pub num_pages: PostgresInt,
    pub price: PostgresNumeric,
    pub author_royalties: PostgresNumeric,
    pub reorder_threshold: PostgresInt,
    pub stock: PostgresInt,
    pub discontinued: bool,
}

impl Book {
    /// The book with the given fields.
    pub fn new(
        isbn: ISBN,
        title: String,
        author_name: String,
        genre: String,
        publisher: PublisherID,
        num_pages: PostgresInt,
        price: PostgresNumeric,
        author_royalties: PostgresNumeric,
        reorder_threshold: PostgresInt,
        stock: PostgresInt,
        discontinued: bool,
    ) -> (b: Book)
        ensures
            b == (Book {
                isbn,
                title,
                author_name,
                genre,
                publisher,
                num_pages,
                price,
                author_royalties,
                reorder_threshold,
                stock,
                discontinued,
            }),
    {
        Book {
            isbn,
            title,
            author_name,
            genre,
            publisher,
            num_pages,
            price,
            author_royalties,
            reorder_threshold,
            stock,
            discontinued,
        }
    }

    /// This book with another stock.
    pub open spec fn with_stock(self, stock: PostgresInt) -> Book {
        Book { stock, ..self }
    }

    /// This book with another discontinued flag.
    pub open spec fn with_discontinued(self, discontinued: bool) -> Book {
        Book { discontinued, ..self }
    }

    /// A copy of this book.
    pub fn duplicate(&self) -> (b: Book)
        ensures
            b == *self,
    {
        Book {
            isbn: self.isbn,
            title: self.title.clone(),
            author_name: self.author_name.clone(),
            genre: self.genre.clone(),
            publisher: self.publisher,
            num_pages: self.num_pages,
            price: self.price,
            author_royalties: self.author_royalties,
            reorder_threshold: self.reorder_threshold,
            stock: self.stock,
            discontinued: self.discontinued,
        }
    }
}

/// A customer as the order engine needs it: who it is and which address and
/// payment record it registered with.
#[derive(Clone, Debug, PartialEq, Eq)]
pub struct Customer {
    pub name: String,
    pub email: String,
    pub default_shipping_address_id: PostgresInt,
    pub default_payment_info_id: PostgresInt,
}

impl Default for Customer {
    fn default() -> (c: Customer)
        ensures
            c.name@ == Seq::<char>::empty(),
            c.email@ == Seq::<char>::empty(),
            c.default_shipping_address_id == 0,
            c.default_payment_info_id == 0,
    {
        Customer {
            name: String::new(),
            email: String::new(),
            default_shipping_address_id: 0,
            default_payment_info_id: 0,
        }
    }
}

} // verus!
