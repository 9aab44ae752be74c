//! Every operation on the store, under one roof.

pub use crate::db::account::{
    get_customer,
    get_customer_info,
    owner_exists,
    try_create_new_customer,
    try_create_new_owner,
    validate_customer_login,
    validate_owner_login,
    OwnerLoginType,
};
pub use crate::db::cart::{
    add_to_cart,
    cart_set_book_quantity,
    check_enough_stock,
    clear_cart,
    get_customer_cart,
};
pub use crate::db::catalog::{
    create_book,
    discontinue_books,
    get_books,
    get_books_with_publisher_name,
    get_publishers,
    get_stock,
    try_create_publisher,
    undiscontinue_books,
};
pub use crate::db::expiry::Expiry;
pub use crate::db::history::{get_books_for_order, get_customer_orders_info, get_order_info};
pub use crate::db::identity::{
    find_address,
    find_payment_info,
    get_or_insert_address,
    get_or_insert_payment_info,
    try_add_address,
    try_add_payment_info,
};
pub use crate::db::order::{
    add_books_to_order,
    create_order,
    get_tracking_number,
    place_order,
    remove_book_stock,
};
