use bookstore::db::error::StorageError;
use bookstore::db::query::{
    create_book, discontinue_books, get_books, get_books_with_publisher_name, get_publishers,
    get_stock, try_create_publisher, undiscontinue_books,
};
use bookstore::db::store::Store;
use bookstore::numeric::Numeric;
use bookstore::schema::entities::{Book, BookWithPublisherName, Customer, Publisher};
use bookstore::schema::joined::{Order, OrderNoBooks};
use bookstore::schema::no_id::{Address, PaymentInfo};
use bookstore::db::query::Expiry;

fn a_book(isbn: i32, publisher: i32, stock: i32) -> Book {
    Book::new(
        isbn,
        format!("Title {}", isbn),
        "An Author".to_string(),
        "Fiction".to_string(),
        publisher,
        320,
        Numeric::new(1999, 2).unwrap(),
        Numeric::new(5, 2).unwrap(),
        2,
        stock,
        false,
    )
}

#[test]
fn a_new_store_is_empty() {
    let store = Store::new();
    assert_eq!(get_books(&store), Ok(vec![]));
    assert_eq!(get_publishers(&store), Ok(vec![]));
    assert_eq!(get_books_with_publisher_name(&store), Ok(vec![]));
}

#[test]
fn books_are_listed_as_they_were_created() {
    let mut store = Store::new();
    assert_eq!(create_book(&mut store, a_book(2, 1, 5)), Ok(()));
    assert_eq!(create_book(&mut store, a_book(1, 1, 0)), Ok(()));
    assert_eq!(get_books(&store), Ok(vec![a_book(2, 1, 5), a_book(1, 1, 0)]));
    assert_eq!(get_stock(&store, 2), Ok(5));
    assert_eq!(get_stock(&store, 1), Ok(0));
    assert_eq!(get_stock(&store, 3), Err(StorageError::RowNotFound));
}

#[test]
fn a_book_needs_a_free_isbn_and_a_stock_that_is_not_negative() {
    let mut store = Store::new();
    assert_eq!(create_book(&mut store, a_book(1, 1, 5)), Ok(()));
    assert_eq!(create_book(&mut store, a_book(1, 1, 9)), Err(StorageError::DuplicateKey));
    assert_eq!(create_book(&mut store, a_book(2, 1, -1)), Err(StorageError::OutOfRange));
    assert_eq!(get_books(&store), Ok(vec![a_book(1, 1, 5)]));
}

#[test]
fn discontinuing_flags_the_listed_books_only() {
    let mut store = Store::new();
    for isbn in [1, 2, 3] {
        create_book(&mut store, a_book(isbn, 1, 5)).unwrap();
    }
    assert_eq!(discontinue_books(&mut store, vec![3, 1, 99]), Ok(()));
    let flags: Vec<(i32, bool)> =
        get_books(&store).unwrap().iter().map(|b| (b.isbn, b.discontinued)).collect();
    assert_eq!(flags, vec![(1, true), (2, false), (3, true)]);
    assert_eq!(undiscontinue_books(&mut store, vec![1]), Ok(()));
    let flags: Vec<(i32, bool)> =
        get_books(&store).unwrap().iter().map(|b| (b.isbn, b.discontinued)).collect();
    assert_eq!(flags, vec![(1, false), (2, false), (3, true)]);
    assert_eq!(get_stock(&store, 3), Ok(5));
}

#[test]
fn books_are_joined_with_their_publishers() {
    let mut store = Store::new();
    let first = try_create_publisher(
        &mut store,
        "Penguin",
        "p@example.com",
        Address::new("1 Main St", "K1A 0B1", "ON"),
        "555-0100",
        "12345",
    );
    assert_eq!(first, Ok(1));
    let second = try_create_publisher(
        &mut store,
        "Orbit",
        "o@example.com",
        Address::new("1 Main St", "K1A 0B1", "ON"),
        "555-0101",
        "67890",
    );
    assert_eq!(second, Ok(2));
    create_book(&mut store, a_book(10, 2, 5)).unwrap();
    create_book(&mut store, a_book(11, 7, 5)).unwrap();
    create_book(&mut store, a_book(12, 1, 5)).unwrap();
    create_book(&mut store, a_book(13, 0, 5)).unwrap();

    let joined = get_books_with_publisher_name(&store).unwrap();
    let names: Vec<(i32, &str)> =
        joined.iter().map(|b| (b.isbn, b.publisher_name.as_str())).collect();
    assert_eq!(names, vec![(10, "Orbit"), (12, "Penguin")]);
    assert_eq!(joined[0].title, "Title 10");
    assert_eq!(joined[0].publisher_id, 2);

    let publishers = get_publishers(&store).unwrap();
    assert_eq!(
        publishers[1],
        Publisher::new(
            2,
            "Orbit".to_string(),
            "o@example.com".to_string(),
            "555-0101".to_string(),
            "67890".to_string(),
            2
        )
    );
}

#[test]
fn records_are_built_from_their_fields() {
    let b = BookWithPublisherName::new(
        1,
        "T".to_string(),
        "A".to_string(),
        "G".to_string(),
        2,
        "P".to_string(),
        3,
        Numeric::new(4, 0).unwrap(),
        Numeric::new(5, 1).unwrap(),
        6,
        7,
        true,
    );
    assert_eq!((b.isbn, b.publisher_id, b.num_pages, b.reorder_threshold, b.stock), (1, 2, 3, 6, 7));
    assert_eq!((b.title.as_str(), b.author_name.as_str(), b.genre.as_str(), b.publisher_name.as_str()), ("T", "A", "G", "P"));
    assert!(b.discontinued);
    assert_eq!(b.price.mantissa(), 4);
    assert_eq!(b.author_royalties.scale(), 1);

    let blank = Customer::default();
    assert_eq!((blank.name.as_str(), blank.email.as_str()), ("", ""));
    assert_eq!((blank.default_shipping_address_id, blank.default_payment_info_id), (0, 0));
    let info = bookstore::schema::joined::Customer::default();
    assert_eq!(info.expiry, "");
    assert_eq!(info.billing_province, "");

    let address = Address::new("s", "p", "r");
    assert_eq!((address.street_address.as_str(), address.postal_code.as_str(), address.province.as_str()), ("s", "p", "r"));
    let payment = PaymentInfo::new("n", Expiry::from_str("2/22").unwrap(), "c", "v", address.clone());
    assert_eq!((payment.name_on_card.as_str(), payment.card_number.as_str(), payment.cvv.as_str()), ("n", "c", "v"));
    assert_eq!(payment.billing_address, address);

    let order = Order::from_order_with_id(
        OrderNoBooks {
            order_id: 9,
            shipping_address: address.clone(),
            tracking_number: "1".to_string(),
            order_status: "PR".to_string(),
            order_date: "2021-12-09".to_string(),
            payment_info: payment.clone(),
        },
        vec![(a_book(1, 1, 1), 2)],
    );
    assert_eq!(order.order_id, 9);
    assert_eq!(order.books, vec![(a_book(1, 1, 1), 2)]);
    assert_eq!(order.payment_info, payment);
    assert_eq!(order.order_date, "2021-12-09");
}
