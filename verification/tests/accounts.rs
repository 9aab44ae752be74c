use bookstore::db::account::{check_password, register_customer, register_owner, LoginError};
use bookstore::db::error::{CartError, OrderError, StateError, StorageError};
use bookstore::db::query::{
    owner_exists, try_create_new_customer, try_create_new_owner, validate_customer_login,
    validate_owner_login, Expiry, OwnerLoginType,
};
use bookstore::db::store::Store;
use bookstore::schema::no_id::{Address, PaymentInfo};

const KNOWN_HASH: &str = "$2a$04$UuTkLRZZ6QofpDOlMz32MuuxEHA43WOemOYHPz6.SjsVsyO1tDU96";

fn home() -> Address {
    Address::new("1 Main St", "K1A 0B1", "ON")
}

fn card() -> PaymentInfo {
    PaymentInfo::new("A", Expiry::from_str("1/25").unwrap(), "4111", "123", home())
}

#[test]
fn a_password_is_checked_against_its_hash() {
    assert!(matches!(check_password(7, "password", KNOWN_HASH), Ok(7)));
    assert!(matches!(
        check_password(7, "Password", KNOWN_HASH),
        Err(LoginError::CredentialError)
    ));
    assert!(matches!(
        check_password(7, "password", "password"),
        Err(LoginError::BCryptError(_))
    ));
    assert!(matches!(check_password(7, "", ""), Err(LoginError::BCryptError(_))));
}

#[test]
fn a_customer_logs_in_with_email_and_password() {
    let mut store = Store::new();
    let id = register_customer(
        &mut store,
        "a@example.com",
        "A",
        KNOWN_HASH.to_string(),
        home(),
        card(),
    )
    .unwrap();
    assert!(matches!(validate_customer_login(&store, "a@example.com", "password"), Ok(x) if x == id));
    assert!(matches!(
        validate_customer_login(&store, "a@example.com", "wrong"),
        Err(LoginError::CredentialError)
    ));
    assert!(matches!(
        validate_customer_login(&store, "b@example.com", "password"),
        Err(LoginError::CredentialError)
    ));
}

#[test]
fn a_registered_customer_can_log_in() {
    let mut store = Store::new();
    let id = try_create_new_customer(&mut store, "a@example.com", "s3cret", "A", home(), card())
        .unwrap();
    assert_eq!(id, 1);
    assert!(matches!(validate_customer_login(&store, "a@example.com", "s3cret"), Ok(1)));
    assert!(matches!(
        validate_customer_login(&store, "a@example.com", "s3cre"),
        Err(LoginError::CredentialError)
    ));
    assert!(matches!(
        try_create_new_customer(&mut store, "a@example.com", "other", "B", home(), card()),
        Err(LoginError::DBError(StorageError::DuplicateKey))
    ));
}

#[test]
fn the_built_in_owner_exists_until_an_owner_registers() {
    let mut store = Store::new();
    assert_eq!(owner_exists(&store), Ok(false));
    assert!(matches!(
        validate_owner_login(&store, "admin@local", "default"),
        Ok(OwnerLoginType::DefaultOwner)
    ));
    assert!(matches!(
        validate_owner_login(&store, "admin@local", "Default"),
        Err(LoginError::CredentialError)
    ));
    assert!(matches!(
        validate_owner_login(&store, "admin@locals", "default"),
        Err(LoginError::CredentialError)
    ));

    assert_eq!(register_owner(&mut store, "o@example.com", "O", KNOWN_HASH.to_string()), Ok(1));
    assert_eq!(owner_exists(&store), Ok(true));
    assert!(matches!(
        validate_owner_login(&store, "admin@local", "default"),
        Err(LoginError::CredentialError)
    ));
    assert!(matches!(
        validate_owner_login(&store, "o@example.com", "password"),
        Ok(OwnerLoginType::OwnerAccount(1))
    ));
    assert!(matches!(
        validate_owner_login(&store, "o@example.com", "default"),
        Err(LoginError::CredentialError)
    ));
    assert_eq!(
        register_owner(&mut store, "o@example.com", "P", KNOWN_HASH.to_string()),
        Err(StorageError::DuplicateKey)
    );
}

#[test]
fn a_registered_owner_can_log_in() {
    let mut store = Store::new();
    assert!(matches!(try_create_new_owner(&mut store, "o@example.com", "pw", "O"), Ok(1)));
    assert!(matches!(
        validate_owner_login(&store, "o@example.com", "pw"),
        Ok(OwnerLoginType::OwnerAccount(1))
    ));
    assert!(matches!(
        try_create_new_owner(&mut store, "o@example.com", "pw", "O"),
        Err(LoginError::DBError(StorageError::DuplicateKey))
    ));
}

#[test]
fn errors_have_their_messages() {
    assert_eq!(StateError::new("Invalid expiry").to_string(), "Invalid expiry");
    assert_eq!(
        CartError::NotEnoughStock.to_string(),
        "Insufficient stock for quantity change"
    );
    assert_eq!(
        CartError::DBError(StorageError::Backend("connection lost".to_string())).to_string(),
        "Internal DB error: `connection lost`"
    );
    assert_eq!(OrderError::NotEnoughStock.to_string(), "Insufficient stock for order");
    assert_eq!(
        OrderError::DBError(StorageError::RowNotFound).to_string(),
        "Internal DB error: `query returned an unexpected number of rows`"
    );
    assert_eq!(
        OrderError::StateError(StateError::new("broken")).to_string(),
        "Internal state error: `broken`"
    );
    assert_eq!(LoginError::CredentialError.to_string(), "Invalid email/password");
    assert_eq!(
        LoginError::DBError(StorageError::DuplicateKey).to_string(),
        "Internal DB error: `duplicate key value violates unique constraint`"
    );
    assert_eq!(StorageError::OutOfRange.to_string(), "integer out of range");
    let bcrypt_failed = check_password(1, "x", "not a hash").unwrap_err();
    assert_eq!(bcrypt_failed.to_string(), "Internal bcrypt error");
    assert_eq!(CartError::from(StorageError::RowNotFound), CartError::DBError(StorageError::RowNotFound));
    assert_eq!(OrderError::from(StorageError::RowNotFound), OrderError::DBError(StorageError::RowNotFound));
    assert_eq!(
        OrderError::from(StateError::new("x")),
        OrderError::StateError(StateError::new("x"))
    );
}
