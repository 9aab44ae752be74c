use bookstore::db::error::ValidationError;
use bookstore::db::query::Expiry;
use bookstore::endpoints::{
    book_of_form, books_with_quantity, censor_card_number, censor_order, extract_genre_list,
    filter_books, isbn_of_text, order_inputs, registration_inputs, CreateBook, CreateOrder,
    Register, Search,
};
use bookstore::numeric::Numeric;
use bookstore::schema::entities::{Book, BookWithPublisherName};
use bookstore::schema::joined::Order;
use bookstore::schema::no_id::{Address, PaymentInfo};

fn listed(isbn: i32, genre: &str, author: &str, publisher: &str, pages: i32, cents: i128, stock: i32, discontinued: bool) -> BookWithPublisherName {
    BookWithPublisherName::new(
        isbn,
        format!("Title {}", isbn),
        author.to_string(),
        genre.to_string(),
        1,
        publisher.to_string(),
        pages,
        Numeric::new(cents, 2).unwrap(),
        Numeric::new(5, 2).unwrap(),
        2,
        stock,
        discontinued,
    )
}

fn shelf() -> Vec<BookWithPublisherName> {
    vec![
        listed(1, "Fiction", "Ann", "Penguin", 100, 999, 5, false),
        listed(2, "Fiction", "Bob", "Orbit", 200, 1999, 0, false),
        listed(3, "History", "Ann", "Orbit", 300, 2999, 5, true),
        listed(4, "N/A", "Cyd", "Penguin", 400, 3999, 1, false),
    ]
}

fn any() -> Search<'static> {
    Search {
        title: None,
        isbn: None,
        genre: None,
        author: None,
        publisher: None,
        min_pages: None,
        max_pages: None,
        min_price: None,
        max_price: None,
        show_discontinued: None,
        show_no_stock: None,
    }
}

fn isbns(books: Vec<BookWithPublisherName>) -> Vec<i32> {
    books.iter().map(|b| b.isbn).collect()
}

#[test]
fn a_search_hides_discontinued_and_sold_out_books_unless_asked() {
    assert_eq!(isbns(filter_books(shelf(), any())), vec![1, 4]);
    assert_eq!(isbns(filter_books(shelf(), Search { show_discontinued: Some(true), ..any() })), vec![1, 3, 4]);
    assert_eq!(isbns(filter_books(shelf(), Search { show_no_stock: Some(true), ..any() })), vec![1, 2, 4]);
    assert_eq!(isbns(filter_books(shelf(), Search { show_no_stock: Some(false), show_discontinued: Some(false), ..any() })), vec![1, 4]);
    let all = Search { show_discontinued: Some(true), show_no_stock: Some(true), ..any() };
    assert_eq!(filter_books(shelf(), all), shelf());
}

#[test]
fn a_search_narrows_by_the_fields_that_are_filled_in() {
    let all = Search { show_discontinued: Some(true), show_no_stock: Some(true), ..any() };
    assert_eq!(isbns(filter_books(shelf(), Search { isbn: Some("3"), ..all })), vec![3]);
    assert_eq!(isbns(filter_books(shelf(), Search { isbn: Some("+3"), ..all })), vec![3]);
    assert_eq!(isbns(filter_books(shelf(), Search { isbn: Some("9"), ..all })), Vec::<i32>::new());
    assert_eq!(isbns(filter_books(shelf(), Search { isbn: Some(""), ..all })), vec![1, 2, 3, 4]);
    assert_eq!(isbns(filter_books(shelf(), Search { isbn: Some("three"), ..all })), vec![1, 2, 3, 4]);
    assert_eq!(isbns(filter_books(shelf(), Search { genre: Some("Fiction"), ..all })), vec![1, 2]);
    assert_eq!(isbns(filter_books(shelf(), Search { genre: Some("fiction"), ..all })), Vec::<i32>::new());
    assert_eq!(isbns(filter_books(shelf(), Search { genre: Some("N/A"), ..all })), vec![1, 2, 3, 4]);
    assert_eq!(isbns(filter_books(shelf(), Search { genre: Some(""), ..all })), vec![1, 2, 3, 4]);
    assert_eq!(isbns(filter_books(shelf(), Search { author: Some("Ann"), ..all })), vec![1, 3]);
    assert_eq!(isbns(filter_books(shelf(), Search { publisher: Some("Orbit"), ..all })), vec![2, 3]);
    assert_eq!(isbns(filter_books(shelf(), Search { author: Some("Ann"), publisher: Some("Orbit"), ..all })), vec![3]);
    assert_eq!(isbns(filter_books(shelf(), Search { min_pages: Some(200), ..all })), vec![2, 3, 4]);
    assert_eq!(isbns(filter_books(shelf(), Search { max_pages: Some(200), ..all })), vec![1, 2]);
    assert_eq!(isbns(filter_books(shelf(), Search { min_pages: Some(201), max_pages: Some(299), ..all })), Vec::<i32>::new());
    assert_eq!(isbns(filter_books(shelf(), Search { title: Some("Title 3"), ..all })), vec![1, 2, 3, 4]);
}

#[test]
fn a_search_compares_prices_as_numbers() {
    let all = Search { show_discontinued: Some(true), show_no_stock: Some(true), ..any() };
    assert_eq!(isbns(filter_books(shelf(), Search { min_price: Some("19.99"), ..all })), vec![2, 3, 4]);
    assert_eq!(isbns(filter_books(shelf(), Search { min_price: Some("19.990"), ..all })), vec![2, 3, 4]);
    assert_eq!(isbns(filter_books(shelf(), Search { min_price: Some("20"), ..all })), vec![3, 4]);
    assert_eq!(isbns(filter_books(shelf(), Search { max_price: Some("19.99"), ..all })), vec![1, 2]);
    assert_eq!(isbns(filter_books(shelf(), Search { max_price: Some("9.989999"), ..all })), Vec::<i32>::new());
    assert_eq!(isbns(filter_books(shelf(), Search { min_price: Some("10"), max_price: Some("30"), ..all })), vec![2, 3]);
    assert_eq!(isbns(filter_books(shelf(), Search { min_price: Some("cheap"), ..all })), vec![1, 2, 3, 4]);
    assert_eq!(isbns(filter_books(shelf(), Search { max_price: Some(""), ..all })), vec![1, 2, 3, 4]);
}

#[test]
fn genres_are_listed_once_each() {
    assert_eq!(extract_genre_list(&shelf()), vec!["Fiction", "History", "N/A"]);
    assert_eq!(extract_genre_list(&vec![]), Vec::<String>::new());
}

#[test]
fn card_numbers_are_censored() {
    assert_eq!(censor_card_number("4111111111111234"), "************1234");
    assert_eq!(censor_card_number("12345"), "************2345");
    assert_eq!(censor_card_number("1234"), "************1234");
    assert_eq!(censor_card_number("123"), "************123");
    assert_eq!(censor_card_number(""), "************");
    assert_eq!(censor_card_number("12é45ü"), "************é45ü");
}

fn plain(isbn: i32) -> Book {
    Book::new(
        isbn,
        "T".to_string(),
        "A".to_string(),
        "G".to_string(),
        1,
        10,
        Numeric::new(1, 0).unwrap(),
        Numeric::new(1, 0).unwrap(),
        1,
        9,
        false,
    )
}

#[test]
fn an_order_is_shown_without_its_security_code() {
    let billing = Address::new("2 Bank St", "K2P 1X3", "ON");
    let shipping = Address::new("1 Main St", "K1A 0B1", "ON");
    let expiry = Expiry::from_str("2/30").unwrap();
    let order = Order {
        order_id: 3,
        shipping_address: shipping.clone(),
        tracking_number: "77".to_string(),
        order_status: "PR".to_string(),
        order_date: "2021-12-09".to_string(),
        payment_info: PaymentInfo::new("A", expiry, "4111111111111234", "999", billing.clone()),
        books: vec![(plain(1), 2), (plain(2), 1)],
    };
    let shown = censor_order(order);
    assert_eq!(shown.order_id, 3);
    assert_eq!(shown.shipping_address, shipping);
    assert_eq!(shown.tracking_number, "77");
    assert_eq!(shown.order_status, "PR");
    assert_eq!(shown.order_date, "2021-12-09");
    assert_eq!(shown.payment_info.name_on_card, "A");
    assert_eq!(shown.payment_info.expiry, expiry);
    assert_eq!(shown.payment_info.censored_card_number, "************1234");
    assert_eq!(shown.payment_info.billing_address, billing);
    assert_eq!(shown.books.len(), 2);
    assert_eq!((shown.books[0].book.isbn, shown.books[0].quantity), (1, 2));
    assert_eq!((shown.books[1].book.isbn, shown.books[1].quantity), (2, 1));
}

#[test]
fn the_cart_page_shows_catalogue_books_with_cart_quantities() {
    let books = vec![plain(1), plain(2), plain(3)];
    let shown = books_with_quantity(&books, &vec![(3, 7), (1, 2), (9, 1), (3, 4)]);
    let pairs: Vec<(i32, u32)> = shown.iter().map(|b| (b.book.isbn, b.quantity)).collect();
    assert_eq!(pairs, vec![(1, 2), (3, 4)]);
    assert_eq!(books_with_quantity(&books, &vec![]), vec![]);
}

fn checkout(default_shipping: bool, default_payment: bool, expiry: &'static str) -> CreateOrder<'static> {
    CreateOrder {
        default_shipping,
        default_payment,
        street_address: "1 Main St",
        postal_code: "K1A 0B1",
        province: "ON",
        name_on_card: "A",
        card_number: "4111",
        expiry,
        cvv: "123",
        billing_street_address: "2 Bank St",
        billing_postal_code: "K2P 1X3",
        billing_province: "QC",
    }
}

#[test]
fn a_checkout_form_submits_what_is_not_defaulted() {
    assert_eq!(order_inputs(&checkout(true, true, "nonsense")), Ok((None, None)));
    let (address, payment) = order_inputs(&checkout(false, false, "3/33")).unwrap();
    assert_eq!(address, Some(Address::new("1 Main St", "K1A 0B1", "ON")));
    assert_eq!(
        payment,
        Some(PaymentInfo::new(
            "A",
            Expiry::from_str("3/33").unwrap(),
            "4111",
            "123",
            Address::new("2 Bank St", "K2P 1X3", "QC")
        ))
    );
    let (address, payment) = order_inputs(&checkout(true, false, "3/33")).unwrap();
    assert_eq!(address, None);
    assert!(payment.is_some());
    let (address, payment) = order_inputs(&checkout(false, true, "")).unwrap();
    assert!(address.is_some());
    assert_eq!(payment, None);
    let refused = order_inputs(&checkout(true, false, "13/33")).unwrap_err();
    assert_eq!(refused, ValidationError::InvalidExpiry);
    assert_eq!(refused.to_string(), "Invalid expiry");
    assert_eq!(order_inputs(&checkout(false, false, "12/20")), Err(ValidationError::InvalidExpiry));
}

#[test]
fn a_registration_form_needs_a_readable_expiry() {
    let form = Register {
        email: "a@example.com",
        name: "A",
        password: "pw",
        street_address: "1 Main St",
        postal_code: "K1A 0B1",
        province: "ON",
        name_on_card: "A",
        card_number: "4111",
        expiry: "12/21",
        cvv: "123",
        billing_street_address: "2 Bank St",
        billing_postal_code: "K2P 1X3",
        billing_province: "QC",
    };
    let (address, payment) = registration_inputs(&form).unwrap();
    assert_eq!(address, Address::new("1 Main St", "K1A 0B1", "ON"));
    assert_eq!(payment.billing_address, Address::new("2 Bank St", "K2P 1X3", "QC"));
    assert_eq!((payment.expiry.month(), payment.expiry.year()), (12, 21));
    assert_eq!(
        registration_inputs(&Register { expiry: "12/20", ..form }),
        Err(ValidationError::InvalidExpiry)
    );
}

#[test]
fn a_book_form_needs_numbers_for_price_and_royalties() {
    let form = CreateBook {
        isbn: 5,
        title: "T",
        author_name: "A",
        genre: "G",
        publisher_id: 2,
        num_pages: 300,
        price: "12.50",
        author_royalties: "0.05",
        reorder_threshold: 3,
        stock: 10,
        discontinued: false,
    };
    let book = book_of_form(&form).unwrap();
    assert_eq!((book.isbn, book.publisher, book.num_pages, book.reorder_threshold, book.stock), (5, 2, 300, 3, 10));
    assert_eq!((book.price.mantissa(), book.price.scale()), (1250, 2));
    assert_eq!((book.author_royalties.mantissa(), book.author_royalties.scale()), (5, 2));
    assert_eq!((book.title.as_str(), book.author_name.as_str(), book.genre.as_str()), ("T", "A", "G"));
    assert_eq!(
        book_of_form(&CreateBook { price: "free", ..form }),
        Err(ValidationError::InvalidDecimal)
    );
    assert_eq!(
        book_of_form(&CreateBook { author_royalties: "", ..form }),
        Err(ValidationError::InvalidDecimal)
    );
}

#[test]
fn a_book_page_needs_a_number_for_an_isbn() {
    assert_eq!(isbn_of_text("42"), Ok(42));
    assert_eq!(isbn_of_text("-7"), Ok(-7));
    assert_eq!(isbn_of_text("forty-two"), Err(ValidationError::InvalidIsbn));
    assert_eq!(isbn_of_text(""), Err(ValidationError::InvalidIsbn));
    assert_eq!(isbn_of_text("2147483648"), Err(ValidationError::InvalidIsbn));
    assert_eq!(ValidationError::InvalidIsbn.to_string(), "Invalid ISBN");
    assert_eq!(ValidationError::InvalidDecimal.to_string(), "Invalid decimal");
}
