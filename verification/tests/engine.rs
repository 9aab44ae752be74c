use bookstore::calendar::Date;
use bookstore::db::engine::{OrderPlacement, OrderReply, OrderRequest, OrderStage};
use bookstore::db::error::{OrderError, StorageError};
use bookstore::db::query::Expiry;
use bookstore::schema::entities::Customer;
use bookstore::schema::no_id::{Address, PaymentInfo};

fn home() -> Address {
    Address::new("1 Main St", "K1A 0B1", "ON")
}

fn card() -> PaymentInfo {
    PaymentInfo::new("A", Expiry::from_str("1/25").unwrap(), "4111", "123", Address::new("2 Bank St", "K2P 1X3", "ON"))
}

fn day() -> Date {
    Date::new(2021, 12, 9).unwrap()
}

fn customer_row() -> Customer {
    Customer {
        name: "A".to_string(),
        email: "a@example.com".to_string(),
        default_shipping_address_id: 11,
        default_payment_info_id: 22,
    }
}

fn talk(mut engine: OrderPlacement, script: Vec<(OrderStage, OrderRequest, OrderReply)>) -> OrderPlacement {
    for (stage, request, reply) in script {
        assert_eq!(engine.stage(), stage);
        assert!(!engine.is_finished());
        assert_eq!(engine.next_request(), Some(request));
        engine = engine.advance(reply);
    }
    engine
}

#[test]
fn an_order_with_defaults_runs_through_every_stage() {
    let engine = OrderPlacement::new(7, vec![(100, 4), (200, 1)], None, None, "4242".to_string(), day());
    let engine = talk(
        engine,
        vec![
            (OrderStage::Validating, OrderRequest::StockOf { isbn: 100 }, OrderReply::Stock(5)),
            (OrderStage::Validating, OrderRequest::StockOf { isbn: 200 }, OrderReply::Stock(2)),
            (OrderStage::ResolvingAddress, OrderRequest::LoadCustomer { customer_id: 7 }, OrderReply::Customer(Some(customer_row()))),
            (OrderStage::ResolvingPayment, OrderRequest::LoadCustomer { customer_id: 7 }, OrderReply::Customer(Some(customer_row()))),
            (OrderStage::Persisting, OrderRequest::Begin, OrderReply::Done),
            (
                OrderStage::Persisting,
                OrderRequest::InsertOrder {
                    customer_id: 7,
                    shipping_address_id: 11,
                    payment_info_id: 22,
                    tracking_number: "4242".to_string(),
                    order_date: day(),
                },
                OrderReply::Inserted(31),
            ),
            (OrderStage::DecrementingStock, OrderRequest::InsertOrderLine { order_id: 31, isbn: 100, quantity: 4 }, OrderReply::Done),
            (OrderStage::DecrementingStock, OrderRequest::TakeStock { isbn: 100, quantity: 4 }, OrderReply::Done),
            (OrderStage::DecrementingStock, OrderRequest::InsertOrderLine { order_id: 31, isbn: 200, quantity: 1 }, OrderReply::Done),
            (OrderStage::DecrementingStock, OrderRequest::TakeStock { isbn: 200, quantity: 1 }, OrderReply::Done),
            (OrderStage::ClearingCart, OrderRequest::ClearCart { customer_id: 7 }, OrderReply::Done),
            (OrderStage::ClearingCart, OrderRequest::Commit, OrderReply::Done),
        ],
    );
    assert_eq!(engine.stage(), OrderStage::Committed);
    assert!(engine.is_finished());
    assert_eq!(engine.next_request(), None);
    assert_eq!(engine.finish(), Some(Ok(31)));
}

#[test]
fn submitted_address_and_card_are_found_or_stored() {
    let engine = OrderPlacement::new(7, vec![], Some(home()), Some(card()), "1".to_string(), day());
    let engine = talk(
        engine,
        vec![
            (OrderStage::ResolvingAddress, OrderRequest::FindAddress { address: home() }, OrderReply::Found(None)),
            (OrderStage::ResolvingAddress, OrderRequest::InsertAddress { address: home() }, OrderReply::Inserted(3)),
            (OrderStage::ResolvingPayment, OrderRequest::FindAddress { address: card().billing_address }, OrderReply::Found(Some(2))),
            (OrderStage::ResolvingPayment, OrderRequest::FindPaymentInfo { payment_info: card(), billing_address_id: 2 }, OrderReply::Found(None)),
            (OrderStage::ResolvingPayment, OrderRequest::InsertPaymentInfo { payment_info: card(), billing_address_id: 2 }, OrderReply::Inserted(9)),
            (OrderStage::Persisting, OrderRequest::Begin, OrderReply::Done),
            (
                OrderStage::Persisting,
                OrderRequest::InsertOrder {
                    customer_id: 7,
                    shipping_address_id: 3,
                    payment_info_id: 9,
                    tracking_number: "1".to_string(),
                    order_date: day(),
                },
                OrderReply::Inserted(1),
            ),
            (OrderStage::ClearingCart, OrderRequest::ClearCart { customer_id: 7 }, OrderReply::Done),
            (OrderStage::ClearingCart, OrderRequest::Commit, OrderReply::Done),
        ],
    );
    assert_eq!(engine.finish(), Some(Ok(1)));

    let engine = OrderPlacement::new(7, vec![], Some(home()), Some(card()), "1".to_string(), day());
    let engine = talk(
        engine,
        vec![
            (OrderStage::ResolvingAddress, OrderRequest::FindAddress { address: home() }, OrderReply::Found(Some(5))),
            (OrderStage::ResolvingPayment, OrderRequest::FindAddress { address: card().billing_address }, OrderReply::Found(None)),
            (OrderStage::ResolvingPayment, OrderRequest::InsertAddress { address: card().billing_address }, OrderReply::Inserted(6)),
            (OrderStage::ResolvingPayment, OrderRequest::FindPaymentInfo { payment_info: card(), billing_address_id: 6 }, OrderReply::Found(Some(4))),
            (OrderStage::Persisting, OrderRequest::Begin, OrderReply::Done),
        ],
    );
    assert_eq!(
        engine.next_request(),
        Some(OrderRequest::InsertOrder {
            customer_id: 7,
            shipping_address_id: 5,
            payment_info_id: 4,
            tracking_number: "1".to_string(),
            order_date: day(),
        })
    );
    assert_eq!(engine.finish(), None);
}

#[test]
fn a_line_at_the_stock_ends_the_attempt_before_any_write() {
    let engine = OrderPlacement::new(7, vec![(100, 4), (200, 2)], Some(home()), None, "1".to_string(), day());
    let engine = talk(
        engine,
        vec![
            (OrderStage::Validating, OrderRequest::StockOf { isbn: 100 }, OrderReply::Stock(5)),
            (OrderStage::Validating, OrderRequest::StockOf { isbn: 200 }, OrderReply::Stock(2)),
        ],
    );
    assert_eq!(engine.stage(), OrderStage::Failed);
    assert_eq!(engine.next_request(), None);
    let engine = engine.advance(OrderReply::Done);
    assert_eq!(engine.stage(), OrderStage::Failed);
    assert_eq!(engine.finish(), Some(Err(OrderError::NotEnoughStock)));
}

#[test]
fn a_missing_customer_is_a_state_error() {
    let engine = OrderPlacement::new(-3, vec![], None, None, "1".to_string(), day());
    let engine = talk(
        engine,
        vec![(OrderStage::ResolvingAddress, OrderRequest::LoadCustomer { customer_id: -3 }, OrderReply::Customer(None))],
    );
    match engine.finish() {
        Some(Err(OrderError::StateError(e))) => assert_eq!(e.to_string(), "No customer with the ID (-3)"),
        other => panic!("unexpected outcome: {:?}", other),
    }

    let engine = OrderPlacement::new(8, vec![], Some(home()), None, "1".to_string(), day());
    let engine = talk(
        engine,
        vec![
            (OrderStage::ResolvingAddress, OrderRequest::FindAddress { address: home() }, OrderReply::Found(Some(1))),
            (OrderStage::ResolvingPayment, OrderRequest::LoadCustomer { customer_id: 8 }, OrderReply::Customer(None)),
        ],
    );
    match engine.finish() {
        Some(Err(OrderError::StateError(e))) => assert_eq!(e.to_string(), "No customer with the ID (8)"),
        other => panic!("unexpected outcome: {:?}", other),
    }
}

#[test]
fn a_failure_inside_the_transaction_rolls_back_first() {
    let start = || {
        talk(
            OrderPlacement::new(7, vec![(100, 4)], None, None, "1".to_string(), day()),
            vec![
                (OrderStage::Validating, OrderRequest::StockOf { isbn: 100 }, OrderReply::Stock(5)),
                (OrderStage::ResolvingAddress, OrderRequest::LoadCustomer { customer_id: 7 }, OrderReply::Customer(Some(customer_row()))),
                (OrderStage::ResolvingPayment, OrderRequest::LoadCustomer { customer_id: 7 }, OrderReply::Customer(Some(customer_row()))),
                (OrderStage::Persisting, OrderRequest::Begin, OrderReply::Done),
            ],
        )
    };
    let engine = start().advance(OrderReply::Inserted(1)).advance(OrderReply::Done);
    assert_eq!(engine.next_request(), Some(OrderRequest::TakeStock { isbn: 100, quantity: 4 }));
    let engine = engine.advance(OrderReply::Refused);
    assert_eq!(engine.stage(), OrderStage::Aborting);
    assert_eq!(engine.next_request(), Some(OrderRequest::Rollback));
    assert!(!engine.is_finished());
    let engine = engine.advance(OrderReply::Failed(StorageError::Backend("gone".to_string())));
    assert_eq!(engine.stage(), OrderStage::Failed);
    assert_eq!(engine.finish(), Some(Err(OrderError::NotEnoughStock)));

    let engine = start().advance(OrderReply::Failed(StorageError::OutOfRange));
    assert_eq!(engine.next_request(), Some(OrderRequest::Rollback));
    let engine = engine.advance(OrderReply::Done);
    assert_eq!(engine.finish(), Some(Err(OrderError::DBError(StorageError::OutOfRange))));
}

#[test]
fn a_storage_failure_outside_the_transaction_fails_at_once() {
    let engine = OrderPlacement::new(7, vec![(100, 4)], None, None, "1".to_string(), day());
    let engine = engine.advance(OrderReply::Failed(StorageError::RowNotFound));
    assert_eq!(engine.stage(), OrderStage::Failed);
    assert_eq!(engine.finish(), Some(Err(OrderError::DBError(StorageError::RowNotFound))));

    let engine = talk(
        OrderPlacement::new(7, vec![], None, None, "1".to_string(), day()),
        vec![
            (OrderStage::ResolvingAddress, OrderRequest::LoadCustomer { customer_id: 7 }, OrderReply::Customer(Some(customer_row()))),
            (OrderStage::ResolvingPayment, OrderRequest::LoadCustomer { customer_id: 7 }, OrderReply::Customer(Some(customer_row()))),
            (OrderStage::Persisting, OrderRequest::Begin, OrderReply::Failed(StorageError::Backend("no".to_string()))),
        ],
    );
    assert_eq!(engine.stage(), OrderStage::Failed);
}

#[test]
fn an_answer_that_was_not_asked_for_is_a_state_error() {
    let engine = OrderPlacement::new(7, vec![(100, 4)], None, None, "1".to_string(), day());
    let engine = engine.advance(OrderReply::Done);
    assert_eq!(engine.stage(), OrderStage::Failed);
    match engine.finish() {
        Some(Err(OrderError::StateError(e))) => assert_eq!(e.to_string(), "Unexpected reply from the store"),
        other => panic!("unexpected outcome: {:?}", other),
    }
}
