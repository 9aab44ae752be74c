//! What can go wrong: one error type per component, so that a caller matches on
//! exactly the failures an operation can produce.

use vstd::prelude::*;
use vstd::string::*;
use vstd::std_specs::convert::FromSpecImpl;

verus! {

/// An internal invariant was found broken: a referenced customer or order is
/// missing, or a stored value cannot be read back.
#[derive(Debug, Clone, PartialEq, Eq)]
pub struct StateError {
    msg: String,
}

impl View for StateError {
    type V = Seq<char>;

    /// The message the error carries.
    closed spec fn view(&self) -> Seq<char> {
        self.msg@
    }
}

impl StateError {
    /// A state error that carries `msg`.
    pub fn new(msg: &str) -> (e: StateError)
        ensures
            e@ == msg@,
    {
        StateError { msg: msg.to_owned() }
    }

    /// The message, as it is shown to a reader.
    pub fn to_string(&self) -> (s: String)
        ensures
            s@ == self@,
    {
        self.msg.clone()
    }
}

/// What a customer or an owner submitted cannot be read. This is the user's
/// mistake, not a fault of the store or of what it holds.
#[derive(Debug, Clone, Copy, PartialEq, Eq, Structural)]
pub enum ValidationError {
    /// The expiry of a card is not a month from 1 to 12, a `/`, and a year of at
    /// least 21.
    InvalidExpiry,
    /// A price or a rate is not a decimal number.
    InvalidDecimal,
    /// An ISBN is not a number.
    InvalidIsbn,
}

/// The text that stands for a validation error.
pub open spec fn validation_error_text(e: ValidationError) -> Seq<char> {
    match e {
        ValidationError::InvalidExpiry => "Invalid expiry"@,
        ValidationError::InvalidDecimal => "Invalid decimal"@,
        ValidationError::InvalidIsbn => "Invalid ISBN"@,
    }
}

impl ValidationError {
    /// The message shown for this error.
    pub fn to_string(&self) -> (s: String)
        ensures
            s@ == validation_error_text(*self),
    {
        match self {
            ValidationError::InvalidExpiry => String::from_str("Invalid expiry"),
            ValidationError::InvalidDecimal => String::from_str("Invalid decimal"),
            ValidationError::InvalidIsbn => String::from_str("Invalid ISBN"),
        }
    }
}

/// A failure of the backing store itself.
#[derive(Debug, Clone, PartialEq, Eq)]
pub enum StorageError {
    /// A query that must find exactly one row found none.
    RowNotFound,
    /// A row with the same key is already stored.
    DuplicateKey,
    /// A number does not fit its column, or a table has run out of identifiers.
    OutOfRange,
    /// Any other failure, with the store's own description of it.
    Backend(String),
}

/// The text that stands for a storage error.
pub open spec fn storage_error_text(e: StorageError) -> Seq<char> {
    match e {
        StorageError::RowNotFound => "query returned an unexpected number of rows"@,
        StorageError::DuplicateKey => "duplicate key value violates unique constraint"@,
        StorageError::OutOfRange => "integer out of range"@,
        StorageError::Backend(msg) => msg@,
    }
}

impl StorageError {
    /// The description of the failure.
    pub fn to_string(&self) -> (s: String)
        ensures
            s@ == storage_error_text(*self),
    {
        match self {
            StorageError::RowNotFound => String::from_str(
                "query returned an unexpected number of rows",
            ),
            StorageError::DuplicateKey => String::from_str(
                "duplicate key value violates unique constraint",
            ),
            StorageError::OutOfRange => String::from_str("integer out of range"),
            StorageError::Backend(msg) => msg.clone(),
        }
    }
}

/// `text` between a prefix and a closing backquote, as the messages quote a cause.
pub open spec fn quoted(prefix: Seq<char>, text: Seq<char>) -> Seq<char> {
    prefix + text + "`"@
}

fn quote(prefix: &str, text: &String) -> (s: String)
    ensures
        s@ == quoted(prefix@, text@),
{
    String::from_str(prefix).concat(text.as_str()).concat("`")
}

/// Why a change to a cart was refused.
#[derive(Debug, Clone, PartialEq, Eq)]
pub enum CartError {
    /// The quantity asked for is not strictly below the book's stock.
    NotEnoughStock,
    /// The store failed.
    DBError(StorageError),
}

/// The text that stands for a cart error.
pub open spec fn cart_error_text(e: CartError) -> Seq<char> {
    match e {
        CartError::NotEnoughStock => "Insufficient stock for quantity change"@,
        CartError::DBError(cause) => quoted("Internal DB error: `"@, storage_error_text(cause)),
    }
}

impl CartError {
    /// The message shown for this error.
    pub fn to_string(&self) -> (s: String)
        ensures
            s@ == cart_error_text(*self),
    {
        match self {
            CartError::NotEnoughStock => String::from_str("Insufficient stock for quantity change"),
            CartError::DBError(cause) => quote("Internal DB error: `", &cause.to_string()),
        }
    }
}

impl From<StorageError> for CartError {
    fn from(cause: StorageError) -> (e: CartError) {
        CartError::DBError(cause)
    }
}

impl FromSpecImpl<StorageError> for CartError {
    open spec fn obeys_from_spec() -> bool {
        true
    }

    open spec fn from_spec(cause: StorageError) -> CartError {
        CartError::DBError(cause)
    }
}

/// Why an order was not placed.
#[derive(Debug, Clone, PartialEq, Eq)]
pub enum OrderError {
    /// A line asks for a quantity that is not strictly below the book's stock.
    NotEnoughStock,
    /// The store failed.
    DBError(StorageError),
    /// The store holds something that contradicts itself.
    StateError(StateError),
}

/// The text that stands for an order error.
pub open spec fn order_error_text(e: OrderError) -> Seq<char> {
    match e {
        OrderError::NotEnoughStock => "Insufficient stock for order"@,
        OrderError::DBError(cause) => quoted("Internal DB error: `"@, storage_error_text(cause)),
        OrderError::StateError(cause) => quoted("Internal state error: `"@, cause@),
    }
}

impl OrderError {
    /// The message shown for this error.
    pub fn to_string(&self) -> (s: String)
        ensures
            s@ == order_error_text(*self),
    {
        match self {
            OrderError::NotEnoughStock => String::from_str("Insufficient stock for order"),
            OrderError::DBError(cause) => quote("Internal DB error: `", &cause.to_string()),
            OrderError::StateError(cause) => quote("Internal state error: `", &cause.to_string()),
        }
    }
}

impl From<StorageError> for OrderError {
    fn from(cause: StorageError) -> (e: OrderError) {
        OrderError::DBError(cause)
    }
}

impl FromSpecImpl<StorageError> for OrderError {
    open spec fn obeys_from_spec() -> bool {
        true
    }

    open spec fn from_spec(cause: StorageError) -> OrderError {
        OrderError::DBError(cause)
    }
}

impl From<StateError> for OrderError {
    fn from(cause: StateError) -> (e: OrderError) {
        OrderError::StateError(cause)
    }
}

impl FromSpecImpl<StateError> for OrderError {
    open spec fn obeys_from_spec() -> bool {
        true
    }

    open spec fn from_spec(cause: StateError) -> OrderError {
        OrderError::StateError(cause)
    }
}

} // verus!
