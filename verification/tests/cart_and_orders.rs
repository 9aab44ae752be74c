use bookstore::calendar::Date;
use bookstore::db::error::{CartError, OrderError, StorageError};
use bookstore::db::query::{
    add_to_cart, cart_set_book_quantity, check_enough_stock, clear_cart, create_book, create_order,
    get_books_for_order, get_customer_cart, get_customer_orders_info, get_order_info, get_stock,
    place_order, Expiry,
};
use bookstore::db::account::register_customer;
use bookstore::db::store::Store;
use bookstore::numeric::Numeric;
use bookstore::schema::entities::Book;
use bookstore::schema::no_id::{Address, PaymentInfo};

fn book(isbn: i32, stock: i32) -> Book {
    Book::new(
        isbn,
        format!("Title {}", isbn),
        "An Author".to_string(),
        "Fiction".to_string(),
        1,
        320,
        Numeric::new(1999, 2).unwrap(),
        Numeric::new(5, 2).unwrap(),
        2,
        stock,
        false,
    )
}

fn home() -> Address {
    Address::new("1 Main St", "K1A 0B1", "ON")
}

fn card() -> PaymentInfo {
    PaymentInfo::new(
        "A Customer",
        Expiry::from_str("12/25").unwrap(),
        "4111111111111111",
        "123",
        Address::new("2 Bank St", "K2P 1X3", "ON"),
    )
}

fn store_with_customer() -> (Store, i32) {
    let mut store = Store::new();
    let id = register_customer(
        &mut store,
        "customer@example.com",
        "A Customer",
        "not-a-real-hash".to_string(),
        home(),
        card(),
    )
    .unwrap();
    (store, id)
}

#[test]
fn set_quantity_below_stock_then_order_takes_the_stock() {
    let (mut store, customer) = store_with_customer();
    create_book(&mut store, book(100, 5)).unwrap();

    assert_eq!(cart_set_book_quantity(&mut store, customer, 100, 4), Ok(()));
    assert_eq!(get_stock(&store, 100), Ok(5));
    assert_eq!(get_customer_cart(&store, customer), Ok(vec![(100, 4)]));

    let cart = get_customer_cart(&store, customer).unwrap();
    let order_id = create_order(&mut store, customer, cart, None, None).unwrap();

    assert_eq!(get_stock(&store, 100), Ok(1));
    assert_eq!(get_customer_cart(&store, customer), Ok(vec![]));
    let orders = get_customer_orders_info(&store, customer).unwrap();
    assert_eq!(orders.len(), 1);
    assert_eq!(orders[0].order_id, order_id);
    assert_eq!(orders[0].books.len(), 1);
    assert_eq!(orders[0].books[0].0.isbn, 100);
    assert_eq!(orders[0].books[0].1, 4);
    assert_eq!(orders[0].order_status, "PR");
}

#[test]
fn set_quantity_equal_to_stock_is_refused() {
    let (mut store, customer) = store_with_customer();
    create_book(&mut store, book(100, 3)).unwrap();
    assert_eq!(cart_set_book_quantity(&mut store, customer, 100, 2), Ok(()));

    assert_eq!(
        cart_set_book_quantity(&mut store, customer, 100, 3),
        Err(CartError::NotEnoughStock)
    );
    assert_eq!(get_customer_cart(&store, customer), Ok(vec![(100, 2)]));
    assert_eq!(get_stock(&store, 100), Ok(3));
}

#[test]
fn set_quantity_refused_without_a_line_leaves_the_cart_empty() {
    let (mut store, customer) = store_with_customer();
    create_book(&mut store, book(100, 3)).unwrap();
    assert_eq!(
        cart_set_book_quantity(&mut store, customer, 100, 3),
        Err(CartError::NotEnoughStock)
    );
    assert_eq!(get_customer_cart(&store, customer), Ok(vec![]));
}

#[test]
fn set_quantity_for_a_missing_book_is_a_storage_error() {
    let (mut store, customer) = store_with_customer();
    assert_eq!(
        cart_set_book_quantity(&mut store, customer, 7, 1),
        Err(CartError::DBError(StorageError::RowNotFound))
    );
    assert_eq!(get_stock(&store, 7), Err(StorageError::RowNotFound));
}

#[test]
fn set_quantity_zero_deletes_the_line() {
    let (mut store, customer) = store_with_customer();
    create_book(&mut store, book(100, 5)).unwrap();
    cart_set_book_quantity(&mut store, customer, 100, 2).unwrap();
    assert_eq!(cart_set_book_quantity(&mut store, customer, 100, 0), Ok(()));
    assert_eq!(get_customer_cart(&store, customer), Ok(vec![]));
}

#[test]
fn set_quantity_zero_without_stock_is_refused_and_keeps_the_line() {
    let (mut store, customer) = store_with_customer();
    create_book(&mut store, book(100, 0)).unwrap();
    add_to_cart(&mut store, customer, 100).unwrap();
    assert_eq!(
        cart_set_book_quantity(&mut store, customer, 100, 0),
        Err(CartError::NotEnoughStock)
    );
    assert_eq!(get_customer_cart(&store, customer), Ok(vec![(100, 1)]));
}

#[test]
fn set_quantity_above_the_signed_range_is_refused() {
    let (mut store, customer) = store_with_customer();
    create_book(&mut store, book(100, i32::MAX)).unwrap();
    assert_eq!(
        cart_set_book_quantity(&mut store, customer, 100, u32::MAX),
        Err(CartError::NotEnoughStock)
    );
    assert_eq!(
        cart_set_book_quantity(&mut store, customer, 100, i32::MAX as u32 - 1),
        Ok(())
    );
}

#[test]
fn add_to_cart_counts_up_without_looking_at_stock() {
    let (mut store, customer) = store_with_customer();
    create_book(&mut store, book(100, 1)).unwrap();
    add_to_cart(&mut store, customer, 100).unwrap();
    add_to_cart(&mut store, customer, 100).unwrap();
    add_to_cart(&mut store, customer, 200).unwrap();
    assert_eq!(get_customer_cart(&store, customer), Ok(vec![(100, 2), (200, 1)]));
    assert_eq!(get_stock(&store, 100), Ok(1));
}

#[test]
fn carts_are_kept_apart() {
    let (mut store, customer) = store_with_customer();
    create_book(&mut store, book(100, 9)).unwrap();
    add_to_cart(&mut store, customer, 100).unwrap();
    add_to_cart(&mut store, customer + 1, 100).unwrap();
    cart_set_book_quantity(&mut store, customer + 1, 100, 5).unwrap();
    assert_eq!(get_customer_cart(&store, customer), Ok(vec![(100, 1)]));
    assert_eq!(get_customer_cart(&store, customer + 1), Ok(vec![(100, 5)]));
    clear_cart(&mut store, customer).unwrap();
    assert_eq!(get_customer_cart(&store, customer), Ok(vec![]));
    assert_eq!(get_customer_cart(&store, customer + 1), Ok(vec![(100, 5)]));
}

#[test]
fn check_enough_stock_is_strict() {
    let (mut store, _) = store_with_customer();
    create_book(&mut store, book(100, 3)).unwrap();
    assert_eq!(check_enough_stock(&store, 100, 2), Ok(true));
    assert_eq!(check_enough_stock(&store, 100, 3), Ok(false));
    assert_eq!(check_enough_stock(&store, 100, 0), Ok(true));
    assert_eq!(check_enough_stock(&store, 5, 0), Err(StorageError::RowNotFound));
}

#[test]
fn an_order_with_one_bad_line_stores_nothing() {
    let (mut store, customer) = store_with_customer();
    create_book(&mut store, book(100, 5)).unwrap();
    create_book(&mut store, book(200, 2)).unwrap();
    add_to_cart(&mut store, customer, 100).unwrap();
    add_to_cart(&mut store, customer, 200).unwrap();
    add_to_cart(&mut store, customer, 200).unwrap();

    let cart = get_customer_cart(&store, customer).unwrap();
    assert_eq!(cart, vec![(100, 1), (200, 2)]);
    let result = create_order(&mut store, customer, cart.clone(), Some(home()), Some(card()));
    assert_eq!(result, Err(OrderError::NotEnoughStock));

    assert_eq!(get_stock(&store, 100), Ok(5));
    assert_eq!(get_stock(&store, 200), Ok(2));
    assert_eq!(get_customer_cart(&store, customer), Ok(cart));
    assert_eq!(get_customer_orders_info(&store, customer).unwrap().len(), 0);
    match get_order_info(&store, 1) {
        Err(OrderError::StateError(e)) => assert_eq!(e.to_string(), "No order with the ID (1)"),
        other => panic!("unexpected result: {:?}", other),
    }
}

#[test]
fn an_order_for_a_missing_book_is_a_storage_error() {
    let (mut store, customer) = store_with_customer();
    let result = create_order(&mut store, customer, vec![(9, 1)], None, None);
    assert_eq!(result, Err(OrderError::DBError(StorageError::RowNotFound)));
}

#[test]
fn an_order_without_a_customer_row_is_a_state_error() {
    let mut store = Store::new();
    create_book(&mut store, book(100, 5)).unwrap();
    let result = create_order(&mut store, 42, vec![(100, 1)], None, None);
    match result {
        Err(OrderError::StateError(e)) => {
            assert_eq!(e.to_string(), "No customer with the ID (42)")
        }
        other => panic!("unexpected result: {:?}", other),
    }
    let result = create_order(&mut store, -7, vec![(100, 1)], Some(home()), None);
    match result {
        Err(e) => assert_eq!(
            e.to_string(),
            "Internal state error: `No customer with the ID (-7)`"
        ),
        other => panic!("unexpected result: {:?}", other),
    }
    assert_eq!(get_stock(&store, 100), Ok(5));
}

#[test]
fn repeated_lines_cannot_take_more_than_the_stock() {
    let (mut store, customer) = store_with_customer();
    create_book(&mut store, book(100, 5)).unwrap();
    let result = create_order(&mut store, customer, vec![(100, 4), (100, 4)], None, None);
    assert_eq!(result, Err(OrderError::NotEnoughStock));
    assert_eq!(get_stock(&store, 100), Ok(5));
    assert_eq!(get_customer_orders_info(&store, customer).unwrap().len(), 0);

    let result = create_order(&mut store, customer, vec![(100, 2), (100, 3)], None, None);
    assert!(result.is_ok());
    assert_eq!(get_stock(&store, 100), Ok(0));
}

#[test]
fn place_order_stores_what_it_was_given() {
    let (mut store, customer) = store_with_customer();
    create_book(&mut store, book(100, 5)).unwrap();
    create_book(&mut store, book(200, 9)).unwrap();
    let date = Date::new(2021, 12, 9).unwrap();
    let shipping = Address::new("9 Elm St", "H0H 0H0", "QC");
    let order_id = place_order(
        &mut store,
        customer,
        vec![(200, 3), (100, 1)],
        Some(shipping.clone()),
        None,
        "4242".to_string(),
        date,
    )
    .unwrap();
    assert_eq!(order_id, 1);

    let info = get_order_info(&store, order_id).unwrap();
    assert_eq!(info.order_id, 1);
    assert_eq!(info.shipping_address, shipping);
    assert_eq!(info.tracking_number, "4242");
    assert_eq!(info.order_status, "PR");
    assert_eq!(info.order_date, "2021-12-09");
    assert_eq!(info.payment_info, card());

    let order = get_books_for_order(&store, info).unwrap();
    assert_eq!(order.books.len(), 2);
    assert_eq!((order.books[0].0.isbn, order.books[0].0.stock, order.books[0].1), (200, 6, 3));
    assert_eq!((order.books[1].0.isbn, order.books[1].0.stock, order.books[1].1), (100, 4, 1));
}

#[test]
fn tracking_numbers_are_decimal_numerals_of_32_bits() {
    let (mut store, customer) = store_with_customer();
    create_book(&mut store, book(100, 5)).unwrap();
    let order_id = create_order(&mut store, customer, vec![(100, 1)], None, None).unwrap();
    let info = get_order_info(&store, order_id).unwrap();
    let n: u32 = info.tracking_number.parse().unwrap();
    assert_eq!(info.tracking_number, n.to_string());
    assert_eq!(info.order_date.len(), 10);
}

#[test]
fn an_order_that_is_asked_for_and_missing_is_a_state_error() {
    let (mut store, customer) = store_with_customer();
    create_book(&mut store, book(100, 5)).unwrap();
    let order_id = create_order(&mut store, customer, vec![(100, 1)], None, None).unwrap();
    assert!(get_order_info(&store, order_id).is_ok());
    for missing in [order_id + 1, 0, -3] {
        match get_order_info(&store, missing) {
            Err(OrderError::StateError(e)) => {
                assert_eq!(e.to_string(), format!("No order with the ID ({})", missing))
            }
            other => panic!("unexpected result: {:?}", other),
        }
    }
}

#[test]
fn an_order_without_its_address_row_is_a_state_error() {
    let mut store = Store::new();
    create_book(&mut store, book(100, 5)).unwrap();
    let date = Date::new(2021, 12, 9).unwrap();
    let stored = bookstore::db::order::commit_order(
        &mut store,
        1,
        7,
        9,
        &vec![(100, 1)],
        "1".to_string(),
        date,
    );
    assert_eq!(stored, Ok(1));
    match get_order_info(&store, 1) {
        Err(OrderError::StateError(e)) => assert_eq!(e.to_string(), "No order with the ID (1)"),
        other => panic!("unexpected result: {:?}", other),
    }
    assert_eq!(get_customer_orders_info(&store, 1).unwrap().len(), 0);
}
