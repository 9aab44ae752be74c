//! What the pages of the shop compute: which books a search shows, what an order
//! shows of a card, and what the forms that customers and owners submit turn
//! into.

use rand::RngCore;
use rand::SeedableRng;
use std::collections::HashMap;
use vstd::prelude::*;
use vstd::string::*;
use crate::db::error::ValidationError;
use crate::db::expiry::{expiry_of_text, Expiry};
use crate::db::search::{first_from, first_index, kept, selected, selected_from, whole_row};
use crate::numeral::{parse_i32, parse_i32_spec};
use crate::numeric::{decimal_text_value, ratio_at_most, Numeric};
use crate::schema::entities::{Book, BookWithPublisherName, PostgresInt, ISBN};
use crate::schema::joined::Order;
use crate::schema::no_id::{Address, PaymentInfo};

verus! {

/// What a visitor searches the catalogue for.
#[derive(Debug, Clone, Copy)]
pub struct Search<'r> {
    pub title: Option<&'r str>,
    pub isbn: Option<&'r str>,
    pub genre: Option<&'r str>,
    pub author: Option<&'r str>,
    pub publisher: Option<&'r str>,
    pub min_pages: Option<i32>,
    pub max_pages: Option<i32>,
    pub min_price: Option<&'r str>,
    pub max_price: Option<&'r str>,
    pub show_discontinued: Option<bool>,
    pub show_no_stock: Option<bool>,
}

/// The login form.
#[derive(Debug, Clone, Copy)]
pub struct Login<'r> {
    pub email: &'r str,
    pub password: &'r str,
}

/// The registration form of a customer.
#[derive(Debug, Clone, Copy)]
pub struct Register<'r> {
    pub email: &'r str,
    pub name: &'r str,
    pub password: &'r str,
    pub street_address: &'r str,
    pub postal_code: &'r str,
    pub province: &'r str,
    pub name_on_card: &'r str,
    pub card_number: &'r str,
    pub expiry: &'r str,
    pub cvv: &'r str,
    pub billing_street_address: &'r str,
    pub billing_postal_code: &'r str,
    pub billing_province: &'r str,
}

/// The checkout form.
#[derive(Debug, Clone, Copy)]
pub struct CreateOrder<'r> {
    pub default_shipping: bool,
    pub default_payment: bool,
    pub street_address: &'r str,
    pub postal_code: &'r str,
    pub province: &'r str,
    pub name_on_card: &'r str,
    pub card_number: &'r str,
    pub expiry: &'r str,
    pub cvv: &'r str,
    pub billing_street_address: &'r str,
    pub billing_postal_code: &'r str,
    pub billing_province: &'r str,
}

/// The form that puts a publisher on record.
#[derive(Debug, Clone, Copy)]
pub struct CreatePublisher<'r> {
    pub company_name: &'r str,
    pub email: &'r str,
    pub street_address: &'r str,
    pub postal_code: &'r str,
    pub province: &'r str,
    pub phone_number: &'r str,
    pub bank_number: &'r str,
}

/// The form that adds a book to the catalogue.
#[derive(Debug, Clone, Copy)]
pub struct CreateBook<'r> {
    pub isbn: i32,
    pub title: &'r str,
    pub author_name: &'r str,
    pub genre: &'r str,
    pub publisher_id: i32,
    pub num_pages: i32,
    pub price: &'r str,
    pub author_royalties: &'r str,
    pub reorder_threshold: i32,
    pub stock: i32,
    pub discontinued: bool,
}

/// The registration form of an owner.
#[derive(Debug, Clone, Copy)]
pub struct RegisterOwner<'r> {
    pub email: &'r str,
    pub name: &'r str,
    pub password: &'r str,
}

/// A payment record as an order page shows it: without the security code, and
/// with the card number censored.
#[derive(Debug, Clone, PartialEq, Eq)]
pub struct CensoredPaymentInfo {
    pub name_on_card: String,
    pub expiry: Expiry,
    pub censored_card_number: String,
    pub billing_address: Address,
}

/// A book and how many copies of it.
#[derive(Debug, Clone, PartialEq, Eq)]
pub struct BookWithQuantity {
    pub book: Book,
    pub quantity: u32,
}

/// An order as an order page shows it.
#[derive(Debug, Clone, PartialEq, Eq)]
pub struct CensoredOrder {
    pub order_id: PostgresInt,
    pub shipping_address: Address,
    pub tracking_number: String,
    pub order_status: String,
    pub order_date: String,
    pub payment_info: CensoredPaymentInfo,
    pub books: Vec<BookWithQuantity>,
}

/// What the `base64` crate writes for a run of bytes, in its standard alphabet
/// with padding.
pub uninterp spec fn base64_text(bytes: Seq<u8>) -> Seq<char>;

/// How many random bytes a session token is made of.
pub const SESSION_TOKEN_BYTES: usize = 32;

/// Seeds a `rand_chacha::ChaCha12Rng` with `SeedableRng::from_entropy` and fills a
/// buffer of `count` bytes with `RngCore::fill_bytes`. The contract claims only how
/// many bytes come back.
#[verifier::external_body]
fn random_bytes(count: usize) -> (bytes: Vec<u8>)
    ensures
        bytes@.len() == count,
{
    let mut rng = rand_chacha::ChaCha12Rng::from_entropy();
    let mut bytes = vec![0u8; count];
    rng.fill_bytes(&mut bytes);
    bytes
}

/// Calls `base64::encode`. The contract names the text.
#[verifier::external_body]
fn base64_encode(bytes: &Vec<u8>) -> (text: String)
    ensures
        text@ == base64_text(bytes@),
{
    base64::encode(bytes)
}

/// The session token made of these bytes: their base64 text.
pub fn session_token_of(bytes: &Vec<u8>) -> (token: String)
    ensures
        token@ == base64_text(bytes@),
{
    base64_encode(bytes)
}

/// Whether a text is a session token: the base64 text of 32 bytes.
pub open spec fn is_session_token(text: Seq<char>) -> bool {
    exists|bytes: Seq<u8>|
        bytes.len() == SESSION_TOKEN_BYTES && text == #[trigger] base64_text(bytes)
}

/// A fresh session token: 32 random bytes in base64.
pub fn create_session_token() -> (token: String)
    ensures
        is_session_token(token@),
{
    let bytes = random_bytes(SESSION_TOKEN_BYTES);
    session_token_of(&bytes)
}

/// The text of an optional field: empty where the field is missing.
pub open spec fn text_or_empty(field: Option<&str>) -> Seq<char> {
    match field {
        Some(text) => text@,
        None => Seq::empty(),
    }
}

/// The number that a price field denotes, where it is filled in with a number.
pub open spec fn price_bound(field: Option<&str>) -> Option<(i128, u32)> {
    match field {
        Some(text) => decimal_text_value(text@),
        None => None,
    }
}

/// The genre that a search asks for, if it asks for one: an empty field and the
/// placeholder `N/A` ask for none.
pub open spec fn wanted_genre(field: Option<&str>) -> Option<Seq<char>> {
    let text = text_or_empty(field);
    if text.len() == 0 || text == "N/A"@ {
        None
    } else {
        Some(text)
    }
}

/// The text that a search asks for in a field, if it is filled in.
pub open spec fn wanted_text(field: Option<&str>) -> Option<Seq<char>> {
    let text = text_or_empty(field);
    if text.len() == 0 {
        None
    } else {
        Some(text)
    }
}

/// Whether a book passes a search. Discontinued books and books out of stock pass
/// only where the search asks for them. Every other field narrows the search
/// only where it is filled in with something that can be read: an ISBN that is no
/// number and a price that is no number narrow nothing.
pub open spec fn passes(book: BookWithPublisherName, search: Search) -> bool {
    &&& search.show_discontinued == Some(true) || !book.discontinued
    &&& search.show_no_stock == Some(true) || book.stock != 0
    &&& parse_i32_spec(text_or_empty(search.isbn)) matches Some(isbn) ==> book.isbn == isbn
    &&& wanted_genre(search.genre) matches Some(genre) ==> book.genre@ == genre
    &&& wanted_text(search.author) matches Some(author) ==> book.author_name@ == author
    &&& wanted_text(search.publisher) matches Some(publisher) ==> book.publisher_name@ == publisher
    &&& search.min_pages matches Some(pages) ==> book.num_pages >= pages
    &&& search.max_pages matches Some(pages) ==> book.num_pages <= pages
    &&& price_bound(search.min_price) matches Some((mantissa, scale)) ==> ratio_at_most(
        mantissa as int,
        scale as nat,
        book.price.spec_mantissa() as int,
        book.price.spec_scale() as nat,
    )
    &&& price_bound(search.max_price) matches Some((mantissa, scale)) ==> ratio_at_most(
        book.price.spec_mantissa() as int,
        book.price.spec_scale() as nat,
        mantissa as int,
        scale as nat,
    )
}

/// The condition "this book passes the search".
pub open spec fn passing(search: Search) -> spec_fn(BookWithPublisherName) -> bool {
    |book: BookWithPublisherName| passes(book, search)
}

/// A search with its fields read.
struct Criteria {
    show_discontinued: bool,
    show_no_stock: bool,
    isbn: Option<i32>,
    genre: Option<String>,
    author: Option<String>,
    publisher: Option<String>,
    min_pages: Option<i32>,
    max_pages: Option<i32>,
    min_price: Option<Numeric>,
    max_price: Option<Numeric>,
}

fn filled_in(field: Option<&str>) -> (r: Option<String>)
    ensures
        match r {
            Some(text) => wanted_text(field) == Some(text@),
            None => wanted_text(field) is None,
        },
{
    match field {
        Some(text) => if text.is_empty() {
            None
        } else {
            Some(text.to_owned())
        },
        None => None,
    }
}

fn read_price(field: Option<&str>) -> (r: Option<Numeric>)
    ensures
        match r {
            Some(n) => price_bound(field) == Some((n.spec_mantissa(), n.spec_scale())),
            None => price_bound(field) is None,
        },
{
    match field {
        Some(text) => Numeric::from_str(text),
        None => None,
    }
}

impl Criteria {
    spec fn reads(self, search: Search) -> bool {
        &&& self.show_discontinued == (search.show_discontinued == Some(true))
        &&& self.show_no_stock == (search.show_no_stock == Some(true))
        &&& self.isbn == parse_i32_spec(text_or_empty(search.isbn))
        &&& match self.genre {
            Some(text) => wanted_genre(search.genre) == Some(text@),
            None => wanted_genre(search.genre) is None,
        }
        &&& match self.author {
            Some(text) => wanted_text(search.author) == Some(text@),
            None => wanted_text(search.author) is None,
        }
        &&& match self.publisher {
            Some(text) => wanted_text(search.publisher) == Some(text@),
            None => wanted_text(search.publisher) is None,
        }
        &&& self.min_pages == search.min_pages
        &&& self.max_pages == search.max_pages
        &&& match self.min_price {
            Some(n) => price_bound(search.min_price) == Some((n.spec_mantissa(), n.spec_scale())),
            None => price_bound(search.min_price) is None,
        }
        &&& match self.max_price {
            Some(n) => price_bound(search.max_price) == Some((n.spec_mantissa(), n.spec_scale())),
            None => price_bound(search.max_price) is None,
        }
    }

    fn of(search: &Search) -> (r: Criteria)
        ensures
            r.reads(*search),
    {
        let isbn = match search.isbn {
            Some(text) => parse_i32(text),
            None => {
                proof {
                    assert(parse_i32_spec(Seq::<char>::empty()) is None);
                }
                None
            },
        };
        let genre = match filled_in(search.genre) {
            Some(text) => if text == String::from_str("N/A") {
                None
            } else {
                Some(text)
            },
            None => None,
        };
        Criteria {
            show_discontinued: match search.show_discontinued {
                Some(show) => show,
                None => false,
            },
            show_no_stock: match search.show_no_stock {
                Some(show) => show,
                None => false,
            },
            isbn,
            genre,
            author: filled_in(search.author),
            publisher: filled_in(search.publisher),
            min_pages: search.min_pages,
            max_pages: search.max_pages,
            min_price: read_price(search.min_price),
            max_price: read_price(search.max_price),
        }
    }

    fn admits(&self, book: &BookWithPublisherName, search: Ghost<Search>) -> (r: bool)
        requires
            self.reads(search@),
        ensures
            r == passes(*book, search@),
    {
        if !self.show_discontinued && book.discontinued {
            return false;
        }
        if !self.show_no_stock && book.stock == 0 {
            return false;
        }
        if let Some(isbn) = self.isbn {
            if book.isbn != isbn {
                return false;
            }
        }
        if let Some(genre) = &self.genre {
            if book.genre != *genre {
                return false;
            }
        }
        if let Some(author) = &self.author {
            if book.author_name != *author {
                return false;
            }
        }
        if let Some(publisher) = &self.publisher {
            if book.publisher_name != *publisher {
                return false;
            }
        }
        if let Some(pages) = self.min_pages {
            if book.num_pages < pages {
                return false;
            }
        }
        if let Some(pages) = self.max_pages {
            if book.num_pages > pages {
                return false;
            }
        }
        if let Some(price) = &self.min_price {
            if !book.price.at_least(price) {
                return false;
            }
        }
        if let Some(price) = &self.max_price {
            if !book.price.at_most(price) {
                return false;
            }
        }
        true
    }
}

/// The books that pass a search, in the order in which they came. The title that
/// a search names narrows nothing: putting the books that pass in the order of
/// their likeness to it is left to the caller.
pub fn filter_books(books: Vec<BookWithPublisherName>, search: Search<'_>) -> (r: Vec<
    BookWithPublisherName,
>)
    ensures
        r@ == kept(books@, passing(search)),
{
    let criteria = Criteria::of(&search);
    let mut out: Vec<BookWithPublisherName> = Vec::new();
    let mut i: usize = 0;
    while i < books.len()
        invariant
            i <= books.len(),
            criteria.reads(search),
            out@ + selected_from(books@, passing(search), whole_row(), i as int) == kept(
                books@,
                passing(search),
            ),
        decreases books.len() - i,
    {
        if criteria.admits(&books[i], Ghost(search)) {
            let ghost before = out@;
            let book = books[i].duplicate();
            out.push(book);
            proof {
                let rest = selected_from(books@, passing(search), whole_row(), i as int + 1);
                assert(book == whole_row::<BookWithPublisherName>()(books@[i as int]));
                assert(out@ + rest =~= before + (seq![book] + rest));
            }
        }
        i = i + 1;
    }
    proof {
        assert(out@ + Seq::<BookWithPublisherName>::empty() =~= out@);
    }
    out
}

/// The genres of the books: each one once, in the order in which it first occurs.
pub open spec fn genres_of(books: Seq<BookWithPublisherName>) -> Seq<Seq<char>>
    decreases books.len(),
{
    if books.len() == 0 {
        Seq::empty()
    } else {
        let before = genres_of(books.drop_last());
        if before.contains(books.last().genre@) {
            before
        } else {
            before.push(books.last().genre@)
        }
    }
}

/// What a list of strings holds, as texts.
pub open spec fn texts(strings: Seq<String>) -> Seq<Seq<char>> {
    strings.map_values(|s: String| s@)
}

fn holds_text(strings: &Vec<String>, text: &String) -> (r: bool)
    ensures
        r == texts(strings@).contains(text@),
{
    let mut k: usize = 0;
    while k < strings.len()
        invariant
            k <= strings.len(),
            forall|j: int| 0 <= j < k ==> texts(strings@)[j] != text@,
        decreases strings.len() - k,
    {
        if strings[k] == *text {
            proof {
                assert(texts(strings@)[k as int] == text@);
            }
            return true;
        }
        k = k + 1;
    }
    false
}

/// The genres of the books: each one once, in the order in which it first occurs.
pub fn extract_genre_list(books: &Vec<BookWithPublisherName>) -> (genres: Vec<String>)
    ensures
        texts(genres@) == genres_of(books@),
{
    let mut genres: Vec<String> = Vec::new();
    let mut i: usize = 0;
    proof {
        assert(texts(genres@) =~= genres_of(books@.take(0)));
    }
    while i < books.len()
        invariant
            i <= books.len(),
            texts(genres@) == genres_of(books@.take(i as int)),
        decreases books.len() - i,
    {
        let ghost before = genres@;
        if !holds_text(&genres, &books[i].genre) {
            genres.push(books[i].genre.clone());
            proof {
                assert(texts(genres@) =~= texts(before).push(books@[i as int].genre@));
            }
        }
        proof {
            let next = books@.take(i as int + 1);
            assert(next.drop_last() =~= books@.take(i as int));
            assert(next.last() == books@[i as int]);
        }
        i = i + 1;
    }
    proof {
        assert(books@.take(books@.len() as int) =~= books@);
    }
    genres
}

/// Twelve stars.
pub open spec fn stars() -> Seq<char> {
    "************"@
}

/// A card number as an order page shows it: twelve stars and the last four
/// characters of the number. A number of four characters or fewer is shown whole
/// behind the stars.
pub open spec fn censored(card_number: Seq<char>) -> Seq<char> {
    let shown = if card_number.len() < 4 {
        card_number.len()
    } else {
        4
    };
    stars() + card_number.subrange(card_number.len() - shown, card_number.len() as int)
}

/// Censors a card number.
pub fn censor_card_number(card_number: &str) -> (r: String)
    ensures
        r@ == censored(card_number@),
{
    let len = card_number.unicode_len();
    let shown: usize = if len < 4 {
        len
    } else {
        4
    };
    String::from_str("************").concat(card_number.substring_char(len - shown, len))
}

/// The condition "this line item is the pair of this book and this quantity".
pub open spec fn shows_item(item: BookWithQuantity, pair: (Book, u32)) -> bool {
    item.book == pair.0 && item.quantity == pair.1
}

/// An order as an order page shows it: the security code is dropped and the card
/// number censored; everything else is handed on.
pub fn censor_order(order: Order) -> (r: CensoredOrder)
    ensures
        r.order_id == order.order_id,
        r.shipping_address == order.shipping_address,
        r.tracking_number == order.tracking_number,
        r.order_status == order.order_status,
        r.order_date == order.order_date,
        r.payment_info.name_on_card == order.payment_info.name_on_card,
        r.payment_info.expiry == order.payment_info.expiry,
        r.payment_info.censored_card_number@ == censored(order.payment_info.card_number@),
        r.payment_info.billing_address == order.payment_info.billing_address,
        r.books@.len() == order.books@.len(),
        forall|i: int| 0 <= i < r.books@.len() ==> shows_item(#[trigger] r.books@[i], order.books@[i]),
{
    let Order {
        order_id,
        shipping_address,
        tracking_number,
        order_status,
        order_date,
        payment_info,
        books,
    } = order;
    let PaymentInfo { name_on_card, expiry, card_number, cvv: _, billing_address } = payment_info;
    let censored_card_number = censor_card_number(card_number.as_str());
    let mut shown: Vec<BookWithQuantity> = Vec::new();
    let mut i: usize = 0;
    while i < books.len()
        invariant
            i <= books.len(),
            shown@.len() == i,
            forall|j: int| 0 <= j < i ==> shows_item(#[trigger] shown@[j], books@[j]),
        decreases books.len() - i,
    {
        shown.push(BookWithQuantity { book: books[i].0.duplicate(), quantity: books[i].1 });
        i = i + 1;
    }
    CensoredOrder {
        order_id,
        shipping_address,
        tracking_number,
        order_status,
        order_date,
        payment_info: CensoredPaymentInfo {
            name_on_card,
            expiry,
            censored_card_number,
            billing_address,
        },
        books: shown,
    }
}

/// The quantities of a cart by book: the lines put into a map one after the other,
/// so that of several lines for one book the last one counts.
pub open spec fn cart_map(cart: Seq<(ISBN, u32)>) -> Map<ISBN, u32>
    decreases cart.len(),
{
    if cart.len() == 0 {
        Map::empty()
    } else {
        cart_map(cart.drop_last()).insert(cart.last().0, cart.last().1)
    }
}

/// The quantity that the cart holds of a book, if the cart has a line for it.
pub open spec fn quantity_for(cart: Seq<(ISBN, u32)>, isbn: ISBN) -> Option<u32> {
    if cart_map(cart).contains_key(isbn) {
        Some(cart_map(cart)[isbn])
    } else {
        None
    }
}

/// The condition "the cart has a line for this book".
pub open spec fn in_cart(cart: Seq<(ISBN, u32)>) -> spec_fn(Book) -> bool {
    |book: Book| quantity_for(cart, book.isbn) is Some
}

/// A book with the quantity that the cart holds of it.
pub open spec fn with_cart_quantity(cart: Seq<(ISBN, u32)>) -> spec_fn(Book) -> BookWithQuantity {
    |book: Book| BookWithQuantity { book, quantity: quantity_for(cart, book.isbn)->0 }
}

fn quantities(cart: &Vec<(ISBN, u32)>) -> (by_book: HashMap<ISBN, u32>)
    ensures
        by_book@ == cart_map(cart@),
{
    broadcast use vstd::std_specs::hash::group_hash_axioms;

    let mut by_book: HashMap<ISBN, u32> = HashMap::new();
    let mut i: usize = 0;
    while i < cart.len()
        invariant
            i <= cart.len(),
            by_book@ == cart_map(cart@.take(i as int)),
        decreases cart.len() - i,
    {
        by_book.insert(cart[i].0, cart[i].1);
        proof {
            assert(cart@.take(i as int + 1).drop_last() =~= cart@.take(i as int));
        }
        i = i + 1;
    }
    proof {
        assert(cart@.take(cart@.len() as int) =~= cart@);
    }
    by_book
}

/// The books of a cart, for the cart page: every book of the catalogue that the
/// cart has a line for, in catalogue order, with the quantity of that line. Where
/// the cart has several lines for a book, the last one counts.
pub fn books_with_quantity(books: &Vec<Book>, cart: &Vec<(ISBN, u32)>) -> (r: Vec<BookWithQuantity>)
    ensures
        r@ == selected(books@, in_cart(cart@), with_cart_quantity(cart@)),
{
    broadcast use vstd::std_specs::hash::group_hash_axioms;

    let by_book = quantities(cart);
    let mut out: Vec<BookWithQuantity> = Vec::new();
    let mut i: usize = 0;
    while i < books.len()
        invariant
            i <= books.len(),
            by_book@ == cart_map(cart@),
            out@ + selected_from(books@, in_cart(cart@), with_cart_quantity(cart@), i as int)
                == selected(books@, in_cart(cart@), with_cart_quantity(cart@)),
        decreases books.len() - i,
    {
        if let Some(quantity) = by_book.get(&books[i].isbn) {
            let ghost before = out@;
            let item = BookWithQuantity { book: books[i].duplicate(), quantity: *quantity };
            out.push(item);
            proof {
                let rest = selected_from(
                    books@,
                    in_cart(cart@),
                    with_cart_quantity(cart@),
                    i as int + 1,
                );
                assert(item == with_cart_quantity(cart@)(books@[i as int]));
                assert(out@ + rest =~= before + (seq![item] + rest));
            }
        }
        i = i + 1;
    }
    proof {
        assert(out@ + Seq::<BookWithQuantity>::empty() =~= out@);
    }
    out
}

/// Whether `address` holds these three texts.
pub open spec fn is_address_of(address: Address, street: &str, postal: &str, province: &str) -> bool {
    &&& address.street_address@ == street@
    &&& address.postal_code@ == postal@
    &&& address.province@ == province@
}

/// Whether `payment_info` is the payment record that a form submits.
pub open spec fn is_payment_of(
    payment_info: PaymentInfo,
    name_on_card: &str,
    expiry: &str,
    card_number: &str,
    cvv: &str,
    street: &str,
    postal: &str,
    province: &str,
) -> bool {
    &&& payment_info.name_on_card@ == name_on_card@
    &&& expiry_of_text(expiry@) == Some(
        (payment_info.expiry.spec_month(), payment_info.expiry.spec_year()),
    )
    &&& payment_info.card_number@ == card_number@
    &&& payment_info.cvv@ == cvv@
    &&& is_address_of(payment_info.billing_address, street, postal, province)
}

/// What a checkout form asks for: the submitted shipping address unless the
/// registered one is to be used, and the submitted payment record unless the
/// registered one is to be used. A submitted expiry that cannot be read is the
/// customer's mistake and a validation error; it is not read where the registered
/// record is used.
pub fn order_inputs(form: &CreateOrder<'_>) -> (r: Result<
    (Option<Address>, Option<PaymentInfo>),
    ValidationError,
>)
    ensures
        if !form.default_payment && expiry_of_text(form.expiry@) is None {
            r == Err::<(Option<Address>, Option<PaymentInfo>), ValidationError>(
                ValidationError::InvalidExpiry,
            )
        } else {
            &&& r matches Ok((address, payment_info))
            &&& match address {
                None => form.default_shipping,
                Some(submitted) => !form.default_shipping && is_address_of(
                    submitted,
                    form.street_address,
                    form.postal_code,
                    form.province,
                ),
            }
            &&& match payment_info {
                None => form.default_payment,
                Some(submitted) => !form.default_payment && is_payment_of(
                    submitted,
                    form.name_on_card,
                    form.expiry,
                    form.card_number,
                    form.cvv,
                    form.billing_street_address,
                    form.billing_postal_code,
                    form.billing_province,
                ),
            }
        },
{
    let address = if form.default_shipping {
        None
    } else {
        Some(Address::new(form.street_address, form.postal_code, form.province))
    };
    let payment_info = if form.default_payment {
        None
    } else {
        let billing = Address::new(
            form.billing_street_address,
            form.billing_postal_code,
            form.billing_province,
        );
        let expiry = match Expiry::from_str(form.expiry) {
            Some(expiry) => expiry,
            None => {
                return Err(ValidationError::InvalidExpiry);
            },
        };
        Some(PaymentInfo::new(form.name_on_card, expiry, form.card_number, form.cvv, billing))
    };
    Ok((address, payment_info))
}

/// What a registration form submits: the shipping address and the payment record.
/// An expiry that cannot be read is a validation error.
pub fn registration_inputs(form: &Register<'_>) -> (r: Result<
    (Address, PaymentInfo),
    ValidationError,
>)
    ensures
        match r {
            Err(e) => e == ValidationError::InvalidExpiry && expiry_of_text(form.expiry@) is None,
            Ok((address, payment_info)) => is_address_of(
                address,
                form.street_address,
                form.postal_code,
                form.province,
            ) && is_payment_of(
                payment_info,
                form.name_on_card,
                form.expiry,
                form.card_number,
                form.cvv,
                form.billing_street_address,
                form.billing_postal_code,
                form.billing_province,
            ),
        },
{
    let address = Address::new(form.street_address, form.postal_code, form.province);
    let billing = Address::new(
        form.billing_street_address,
        form.billing_postal_code,
        form.billing_province,
    );
    match Expiry::from_str(form.expiry) {
        Some(expiry) => Ok(
            (
                address,
                PaymentInfo::new(form.name_on_card, expiry, form.card_number, form.cvv, billing),
            ),
        ),
        None => Err(ValidationError::InvalidExpiry),
    }
}

/// The book that a form describes. A price or a royalty rate that is no number is
/// a validation error.
pub fn book_of_form(form: &CreateBook<'_>) -> (r: Result<Book, ValidationError>)
    ensures
        match (decimal_text_value(form.price@), decimal_text_value(form.author_royalties@)) {
            (Some(price), Some(royalties)) => {
                &&& r matches Ok(book)
                &&& book.isbn == form.isbn
                &&& book.title@ == form.title@
                &&& book.author_name@ == form.author_name@
                &&& book.genre@ == form.genre@
                &&& book.publisher == form.publisher_id
                &&& book.num_pages == form.num_pages
                &&& (book.price.spec_mantissa(), book.price.spec_scale()) == price
                &&& (book.author_royalties.spec_mantissa(), book.author_royalties.spec_scale())
                    == royalties
                &&& book.reorder_threshold == form.reorder_threshold
                &&& book.stock == form.stock
                &&& book.discontinued == form.discontinued
            },
            _ => r == Err::<Book, ValidationError>(ValidationError::InvalidDecimal),
        },
{
    let price = match Numeric::from_str(form.price) {
        Some(price) => price,
        None => {
            return Err(ValidationError::InvalidDecimal);
        },
    };
    let author_royalties = match Numeric::from_str(form.author_royalties) {
        Some(rate) => rate,
        None => {
            return Err(ValidationError::InvalidDecimal);
        },
    };
    Ok(
        Book::new(
            form.isbn,
            form.title.to_owned(),
            form.author_name.to_owned(),
            form.genre.to_owned(),
            form.publisher_id,
            form.num_pages,
            price,
            author_royalties,
            form.reorder_threshold,
            form.stock,
            form.discontinued,
        ),
    )
}

/// The ISBN that the address of a book page names. A text that is no number is a
/// validation error.
pub fn isbn_of_text(text: &str) -> (r: Result<ISBN, ValidationError>)
    ensures
        r == match parse_i32_spec(text@) {
            Some(isbn) => Ok::<ISBN, ValidationError>(isbn),
            None => Err(ValidationError::InvalidIsbn),
        },
{
    match parse_i32(text) {
        Some(isbn) => Ok(isbn),
        None => Err(ValidationError::InvalidIsbn),
    }
}

} // verus!
