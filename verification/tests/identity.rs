use bookstore::db::account::register_customer;
use bookstore::db::error::StorageError;
use bookstore::db::query::{
    find_address, find_payment_info, get_customer, get_customer_info, get_or_insert_address,
    get_or_insert_payment_info, try_add_address, try_add_payment_info, Expiry,
};
use bookstore::db::store::Store;
use bookstore::schema::no_id::{Address, PaymentInfo};

fn payment(name: &str, expiry: &str, number: &str, cvv: &str, street: &str) -> PaymentInfo {
    PaymentInfo::new(
        name,
        Expiry::from_str(expiry).unwrap(),
        number,
        cvv,
        Address::new(street, "K2P 1X3", "ON"),
    )
}

#[test]
fn resolving_the_same_address_twice_gives_the_same_id() {
    let mut store = Store::new();
    let first = get_or_insert_address(&mut store, Address::new("1 Main St", "K1A 0B1", "ON"));
    let second = get_or_insert_address(&mut store, Address::new("1 Main St", "K1A 0B1", "ON"));
    assert_eq!(first, Ok(1));
    assert_eq!(second, Ok(1));
    assert_eq!(
        find_address(&store, &Address::new("1 Main St", "K1A 0B1", "ON")),
        Ok(Some(1))
    );
}

#[test]
fn addresses_that_differ_in_one_field_are_different_entities() {
    let mut store = Store::new();
    assert_eq!(get_or_insert_address(&mut store, Address::new("1 Main St", "K1A 0B1", "ON")), Ok(1));
    assert_eq!(get_or_insert_address(&mut store, Address::new("1 Main St", "K1A 0B1", "QC")), Ok(2));
    assert_eq!(get_or_insert_address(&mut store, Address::new("1 Main St", "K1A 0B2", "ON")), Ok(3));
    assert_eq!(get_or_insert_address(&mut store, Address::new("1 main St", "K1A 0B1", "ON")), Ok(4));
    assert_eq!(get_or_insert_address(&mut store, Address::new("1 Main St", "K1A 0B1", "QC")), Ok(2));
    assert_eq!(find_address(&store, &Address::new("", "", "")), Ok(None));
}

#[test]
fn adding_an_address_never_looks_for_a_match() {
    let mut store = Store::new();
    assert_eq!(try_add_address(&mut store, Address::new("1 Main St", "K1A 0B1", "ON")), Ok(1));
    assert_eq!(try_add_address(&mut store, Address::new("1 Main St", "K1A 0B1", "ON")), Ok(2));
    assert_eq!(
        get_or_insert_address(&mut store, Address::new("1 Main St", "K1A 0B1", "ON")),
        Ok(1)
    );
}

#[test]
fn resolving_the_same_payment_record_twice_gives_the_same_id() {
    let mut store = Store::new();
    let first = get_or_insert_payment_info(&mut store, payment("A", "1/25", "4111", "123", "2 Bank St"));
    let second = get_or_insert_payment_info(&mut store, payment("A", "01/25", "4111", "123", "2 Bank St"));
    assert_eq!(first, Ok(1));
    assert_eq!(second, Ok(1));
    assert_eq!(
        find_payment_info(&store, &payment("A", "1/25", "4111", "123", "2 Bank St")),
        Ok(Some(1))
    );
    assert_eq!(find_address(&store, &Address::new("2 Bank St", "K2P 1X3", "ON")), Ok(Some(1)));
}

#[test]
fn payment_records_that_differ_in_one_field_are_different_entities() {
    let mut store = Store::new();
    assert_eq!(get_or_insert_payment_info(&mut store, payment("A", "1/25", "4111", "123", "2 Bank St")), Ok(1));
    assert_eq!(get_or_insert_payment_info(&mut store, payment("B", "1/25", "4111", "123", "2 Bank St")), Ok(2));
    assert_eq!(get_or_insert_payment_info(&mut store, payment("A", "2/25", "4111", "123", "2 Bank St")), Ok(3));
    assert_eq!(get_or_insert_payment_info(&mut store, payment("A", "1/25", "4112", "123", "2 Bank St")), Ok(4));
    assert_eq!(get_or_insert_payment_info(&mut store, payment("A", "1/25", "4111", "124", "2 Bank St")), Ok(5));
    assert_eq!(get_or_insert_payment_info(&mut store, payment("A", "1/25", "4111", "123", "3 Bank St")), Ok(6));
    assert_eq!(
        find_payment_info(&store, &payment("A", "1/25", "4111", "123", "4 Bank St")),
        Ok(None)
    );
    assert_eq!(
        find_payment_info(&store, &payment("C", "1/25", "4111", "123", "2 Bank St")),
        Ok(None)
    );
}

#[test]
fn adding_a_payment_record_stores_a_new_billing_address_each_time() {
    let mut store = Store::new();
    assert_eq!(try_add_payment_info(&mut store, payment("A", "1/25", "4111", "123", "2 Bank St")), Ok(1));
    assert_eq!(try_add_payment_info(&mut store, payment("A", "1/25", "4111", "123", "2 Bank St")), Ok(2));
    assert_eq!(try_add_address(&mut store, Address::new("x", "y", "z")), Ok(3));
}

#[test]
fn registration_stores_new_rows_even_for_known_content() {
    let mut store = Store::new();
    let home = Address::new("1 Main St", "K1A 0B1", "ON");
    assert_eq!(get_or_insert_address(&mut store, home.clone()), Ok(1));
    let id = register_customer(
        &mut store,
        "a@example.com",
        "A",
        "hash".to_string(),
        home.clone(),
        payment("A", "1/25", "4111", "123", "1 Main St"),
    );
    assert_eq!(id, Ok(1));
    let customer = get_customer(&store, 1).unwrap().unwrap();
    assert_eq!(customer.name, "A");
    assert_eq!(customer.email, "a@example.com");
    assert_eq!(customer.default_shipping_address_id, 2);
    assert_eq!(customer.default_payment_info_id, 1);
    assert_eq!(try_add_address(&mut store, home.clone()), Ok(4));

    let info = get_customer_info(&store, 1).unwrap().unwrap();
    assert_eq!(info.street_address, "1 Main St");
    assert_eq!(info.expiry, "1/25");
    assert_eq!(info.name_on_card, "A");
    assert_eq!(info.billing_postal_code, "K2P 1X3");
    assert_eq!(get_customer(&store, 2), Ok(None));
    assert_eq!(get_customer(&store, 0), Ok(None));
    assert_eq!(get_customer_info(&store, -1), Ok(None));
}

#[test]
fn an_email_can_be_registered_once() {
    let mut store = Store::new();
    let home = Address::new("1 Main St", "K1A 0B1", "ON");
    let first = register_customer(
        &mut store,
        "a@example.com",
        "A",
        "hash".to_string(),
        home.clone(),
        payment("A", "1/25", "4111", "123", "1 Main St"),
    );
    assert_eq!(first, Ok(1));
    let second = register_customer(
        &mut store,
        "a@example.com",
        "B",
        "hash".to_string(),
        home.clone(),
        payment("B", "1/25", "4111", "123", "1 Main St"),
    );
    assert_eq!(second, Err(StorageError::DuplicateKey));
    assert_eq!(try_add_address(&mut store, home), Ok(3));
}
