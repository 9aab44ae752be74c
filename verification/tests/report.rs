use bookstore::calendar::Date;
use bookstore::db::error::{OrderError, StorageError};
use bookstore::db::order::{
    add_books_to_order, commit_order, remove_book_stock, resolve_payment, resolve_shipping,
    tracking_number_of, validate_lines,
};
use bookstore::db::query::{create_book, get_books, get_or_insert_address, get_stock};
use bookstore::db::store::Store;
use bookstore::numeric::Numeric;
use bookstore::report::{
    chart_points, days_after, distinct_days, earliest_day, since_earliest, sort_by_day,
    with_missing_days,
};
use bookstore::schema::entities::Book;
use bookstore::schema::no_id::Address;

#[test]
fn days_are_counted_between_dates() {
    let day = |y, m, d| Date::new(y, m, d).unwrap();
    assert_eq!(days_after(&day(2021, 12, 9), &day(2021, 12, 9)), 0);
    assert_eq!(days_after(&day(2021, 12, 9), &day(2021, 12, 10)), 1);
    assert_eq!(days_after(&day(2021, 12, 9), &day(2021, 11, 9)), -30);
    assert_eq!(days_after(&day(2020, 1, 1), &day(2021, 1, 1)), 366);
    assert_eq!(days_after(&day(2021, 1, 1), &day(2022, 1, 1)), 365);
    assert_eq!(days_after(&day(-262143, 1, 1), &day(262142, 12, 31)), 191_491_528);
}

#[test]
fn each_day_is_listed_once() {
    assert_eq!(distinct_days(&vec![(-3, 1), (0, 2), (-3, 4), (5, 0), (0, 0)]), vec![-3, 0, 5]);
    assert_eq!(distinct_days(&vec![]), Vec::<i64>::new());
}

#[test]
fn days_without_a_sale_get_a_zero() {
    let data = vec![(-3, 1), (0, 2)];
    assert_eq!(
        with_missing_days(data.clone(), &vec![-5, -3, -1, 0, -5]),
        vec![(-3, 1), (0, 2), (-5, 0), (-1, 0), (-5, 0)]
    );
    assert_eq!(with_missing_days(data.clone(), &vec![]), data);
    assert_eq!(with_missing_days(vec![], &vec![4]), vec![(4, 0)]);
}

#[test]
fn the_earliest_day_is_the_least_or_zero() {
    assert_eq!(earliest_day(&vec![(-3, 1), (-7, 2), (4, 4)]), -7);
    assert_eq!(earliest_day(&vec![(5, 1)]), 5);
    assert_eq!(earliest_day(&vec![]), 0);
}

#[test]
fn days_are_counted_from_the_earliest() {
    assert_eq!(since_earliest(&vec![(-3, 1), (-7, 2), (4, 4)], -7), vec![(4, 1), (0, 2), (11, 4)]);
    assert_eq!(
        since_earliest(&vec![(i64::MAX, i64::MIN)], i64::MIN),
        vec![(i64::MAX as i128 - i64::MIN as i128, i64::MIN as i128)]
    );
}

#[test]
fn points_are_put_in_the_order_of_their_days() {
    assert_eq!(
        sort_by_day(vec![(4, 1), (0, 2), (11, 4), (0, 1), (4, 0)]),
        vec![(0, 2), (0, 1), (4, 1), (4, 0), (11, 4)]
    );
    assert_eq!(sort_by_day(vec![]), vec![]);
}

fn book(isbn: i32, stock: i32) -> Book {
    Book::new(
        isbn,
        "T".to_string(),
        "A".to_string(),
        "G".to_string(),
        1,
        10,
        Numeric::new(1, 0).unwrap(),
        Numeric::new(1, 0).unwrap(),
        1,
        stock,
        false,
    )
}

#[test]
fn lines_are_validated_in_order() {
    let mut store = Store::new();
    create_book(&mut store, book(1, 5)).unwrap();
    create_book(&mut store, book(2, 1)).unwrap();
    assert_eq!(validate_lines(&store, &vec![]), Ok(()));
    assert_eq!(validate_lines(&store, &vec![(1, 4), (2, 0)]), Ok(()));
    assert_eq!(validate_lines(&store, &vec![(1, 4), (2, 1)]), Err(OrderError::NotEnoughStock));
    assert_eq!(
        validate_lines(&store, &vec![(3, 1), (2, 1)]),
        Err(OrderError::DBError(StorageError::RowNotFound))
    );
    assert_eq!(validate_lines(&store, &vec![(2, 1), (3, 1)]), Err(OrderError::NotEnoughStock));
}

#[test]
fn stock_is_taken_for_every_line_or_for_none() {
    let mut store = Store::new();
    create_book(&mut store, book(1, 5)).unwrap();
    create_book(&mut store, book(2, 1)).unwrap();
    assert_eq!(
        remove_book_stock(&mut store, &vec![(1, 5), (2, 2)]),
        Err(OrderError::NotEnoughStock)
    );
    assert_eq!((get_stock(&store, 1), get_stock(&store, 2)), (Ok(5), Ok(1)));
    assert_eq!(
        remove_book_stock(&mut store, &vec![(1, 1), (9, 1)]),
        Err(OrderError::NotEnoughStock)
    );
    assert_eq!(get_stock(&store, 1), Ok(5));
    assert_eq!(remove_book_stock(&mut store, &vec![(1, 2), (2, 1), (1, 3)]), Ok(()));
    assert_eq!((get_stock(&store, 1), get_stock(&store, 2)), (Ok(0), Ok(0)));
    assert_eq!(get_books(&store).unwrap().len(), 2);
}

#[test]
fn line_items_need_quantities_that_fit() {
    let mut store = Store::new();
    assert_eq!(
        add_books_to_order(&mut store, &vec![(1, 1), (2, 2147483648)], 1),
        Err(StorageError::OutOfRange)
    );
    assert_eq!(add_books_to_order(&mut store, &vec![(1, 1), (2, 2147483647)], 1), Ok(()));
}

#[test]
fn an_order_can_be_stored_once_it_is_resolved() {
    let mut store = Store::new();
    create_book(&mut store, book(1, 5)).unwrap();
    let home = Address::new("1 Main St", "K1A 0B1", "ON");
    assert_eq!(resolve_shipping(&mut store, 3, Some(home.clone())), Ok(1));
    assert_eq!(resolve_shipping(&mut store, 3, Some(home.clone())), Ok(1));
    assert!(matches!(resolve_shipping(&mut store, 3, None), Err(OrderError::StateError(_))));
    assert!(matches!(resolve_payment(&mut store, 3, None), Err(OrderError::StateError(_))));
    assert_eq!(get_or_insert_address(&mut store, home), Ok(1));

    let date = Date::new(2021, 12, 9).unwrap();
    let refused = commit_order(&mut store, 3, 1, 1, &vec![(1, 6)], "1".to_string(), date);
    assert_eq!(refused, Err(OrderError::NotEnoughStock));
    assert_eq!(get_stock(&store, 1), Ok(5));
    let stored = commit_order(&mut store, 3, 1, 1, &vec![(1, 5)], "1".to_string(), date);
    assert_eq!(stored, Ok(1));
    assert_eq!(get_stock(&store, 1), Ok(0));
    assert_eq!(tracking_number_of(0), "0");
    assert_eq!(tracking_number_of(4294967295), "4294967295");
}

#[test]
fn every_series_of_the_chart_covers_the_same_days_from_day_zero() {
    let chart = chart_points(&vec![
        vec![(-3, 5), (-1, 2), (-3, 1)],
        vec![(-7, 4)],
        vec![],
        vec![(0, 9), (-1, 1)],
    ]);
    assert_eq!(chart.earliest, -7);
    assert_eq!(
        chart.series,
        vec![
            vec![(0, 0), (4, 5), (4, 1), (6, 2), (7, 0)],
            vec![(0, 4), (4, 0), (6, 0), (7, 0)],
            vec![(0, 0), (4, 0), (6, 0), (7, 0)],
            vec![(0, 0), (4, 0), (6, 1), (7, 9)],
        ]
    );
    let nothing = chart_points(&vec![vec![], vec![]]);
    assert_eq!(nothing.earliest, 0);
    assert_eq!(nothing.series, vec![vec![], vec![]]);
    let none = chart_points(&vec![]);
    assert_eq!((none.earliest, none.series.len()), (0, 0));
    let late = chart_points(&vec![vec![(5, 1)]]);
    assert_eq!((late.earliest, late.series), (5, vec![vec![(0, 1)]]));
}
