//! Accounts: registering customers and owners, and checking a login.
//!
//! Passwords are stored as bcrypt hashes, and bcrypt decides whether a password
//! fits a hash. A failed login says the same whether the account is missing or the
//! password is wrong.

use vstd::prelude::*;
use vstd::string::*;
use crate::db::error::{quoted, storage_error_text, StorageError};
use crate::db::expiry::expiry_text;
use crate::db::identity::{payment_row_of, try_add_address, try_add_payment_info};
use crate::db::search::{first_from, first_index, lemma_first_from};
use crate::db::store::{
    customer_number,
    lemma_numbered_push,
    owner_number,
    row_numbered,
    AddressRow,
    CustomerRow,
    OwnerRow,
    Store,
    Tables,
};
use crate::schema::entities::{Customer, PostgresInt};
use crate::schema::no_id::{Address, PaymentInfo};

verus! {

/// The error type of the `bcrypt` crate.
#[verifier::external_type_specification]
#[verifier::external_body]
pub struct ExBcryptError(bcrypt::BcryptError);

/// The cost that passwords are hashed with.
pub const HASH_COST: u32 = 10;

/// Why a login or a registration failed.
#[derive(Debug)]
pub enum LoginError {
    /// The store failed.
    DBError(StorageError),
    /// No account has this email, or the password is wrong.
    CredentialError,
    /// bcrypt could not work with the password or the stored hash.
    BCryptError(bcrypt::BcryptError),
}

/// The text that stands for a login error.
pub open spec fn login_error_text(e: LoginError) -> Seq<char> {
    match e {
        LoginError::DBError(cause) => quoted("Internal DB error: `"@, storage_error_text(cause)),
        LoginError::CredentialError => "Invalid email/password"@,
        LoginError::BCryptError(_) => "Internal bcrypt error"@,
    }
}

impl LoginError {
    /// The message shown for this error.
    pub fn to_string(&self) -> (s: String)
        ensures
            s@ == login_error_text(*self),
    {
        match self {
            LoginError::DBError(cause) => String::from_str("Internal DB error: `").concat(
                cause.to_string().as_str(),
            ).concat("`"),
            LoginError::CredentialError => String::from_str("Invalid email/password"),
            LoginError::BCryptError(_) => String::from_str("Internal bcrypt error"),
        }
    }
}

/// How an owner is logged in.
#[derive(Debug, Clone, Copy, PartialEq, Eq, Structural)]
pub enum OwnerLoginType {
    /// As the built-in owner, which exists while no owner account does.
    DefaultOwner,
    /// As the owner account with this identifier.
    OwnerAccount(PostgresInt),
}

/// What bcrypt says of a password and a hash: whether the password fits, or
/// nothing where it cannot work with the hash.
pub uninterp spec fn bcrypt_verdict(password: Seq<char>, hash: Seq<char>) -> Option<bool>;

/// Calls `bcrypt::verify`. The contract names the outcome: it rests on bcrypt
/// recomputing the hash from the password and the salt and cost written in the
/// stored hash, so that the same two texts always give the same answer.
#[verifier::external_body]
fn bcrypt_verify(password: &str, hash: &str) -> (r: Result<bool, bcrypt::BcryptError>)
    ensures
        match r {
            Ok(fits) => bcrypt_verdict(password@, hash@) == Some(fits),
            Err(_) => bcrypt_verdict(password@, hash@) is None,
        },
{
    bcrypt::verify(password, hash)
}

/// Calls `bcrypt::hash`. The salt is random, so the contract does not say which
/// hash comes back; it claims what holds of every hash that does: `bcrypt::verify`
/// accepts the password for it, because it recomputes the hash from the same
/// password with the salt and cost that the hash carries.
#[verifier::external_body]
fn bcrypt_hash(password: &str, cost: u32) -> (r: Result<String, bcrypt::BcryptError>)
    ensures
        r matches Ok(hash) ==> bcrypt_verdict(password@, hash@) == Some(true),
{
    bcrypt::hash(password, cost)
}

/// The condition "this customer has the given email".
pub open spec fn customer_has_email(email: Seq<char>) -> spec_fn(CustomerRow) -> bool {
    |row: CustomerRow| row.email@ == email
}

/// The condition "this owner has the given email".
pub open spec fn owner_has_email(email: Seq<char>) -> spec_fn(OwnerRow) -> bool {
    |row: OwnerRow| row.email@ == email
}

/// What a login comes to once bcrypt has answered for the account that has the
/// email.
pub open spec fn login_outcome<T>(account: T, answer: Option<bool>, r: Result<T, LoginError>) -> bool {
    match answer {
        Some(true) => r matches Ok(who) && who == account,
        Some(false) => r matches Err(LoginError::CredentialError),
        None => r matches Err(LoginError::BCryptError(_)),
    }
}

impl Tables {
    /// The first customer with this email.
    pub open spec fn customer_by_email(self, email: Seq<char>) -> Option<CustomerRow> {
        let at = first_index(self.customers, customer_has_email(email));
        if at < self.customers.len() {
            Some(self.customers[at])
        } else {
            None
        }
    }

    /// The first owner with this email.
    pub open spec fn owner_by_email(self, email: Seq<char>) -> Option<OwnerRow> {
        let at = first_index(self.owners, owner_has_email(email));
        if at < self.owners.len() {
            Some(self.owners[at])
        } else {
            None
        }
    }

    /// A customer as the order engine needs it.
    pub open spec fn customer_entity(self, customer_id: i32) -> Option<Customer> {
        match self.customer(customer_id) {
            Some(row) => Some(
                Customer {
                    name: row.name,
                    email: row.email,
                    default_shipping_address_id: row.default_shipping_address,
                    default_payment_info_id: row.default_payment_info_id,
                },
            ),
            None => None,
        }
    }

    /// A customer with the registered address and card written out, where customer,
    /// address, payment record and billing address are all stored.
    pub open spec fn customer_info(self, customer_id: i32) -> Option<crate::schema::joined::Customer> {
        match self.customer(customer_id) {
            None => None,
            Some(row) => match (
                row_numbered(self.addresses, row.default_shipping_address),
                row_numbered(self.payment_infos, row.default_payment_info_id),
            ) {
                (Some(shipping), Some(payment)) => match row_numbered(
                    self.addresses,
                    payment.billing_address_id,
                ) {
                    Some(billing) => Some(
                        crate::schema::joined::Customer {
                            name: row.name,
                            email: row.email,
                            street_address: shipping.address.street_address,
                            postal_code: shipping.address.postal_code,
                            province: shipping.address.province,
                            name_on_card: payment.name_on_card,
                            expiry: payment.expiry,
                            billing_street_address: billing.address.street_address,
                            billing_postal_code: billing.address.postal_code,
                            billing_province: billing.address.province,
                        },
                    ),
                    None => None,
                },
                _ => None,
            },
        }
    }

    /// Why a customer cannot be registered, if anything keeps it: an email that is
    /// taken, or a table without the identifiers that registration needs (two
    /// addresses, one payment record, one customer).
    pub open spec fn registration_fault(self, email: Seq<char>) -> Option<StorageError> {
        if self.customer_by_email(email) is Some {
            Some(StorageError::DuplicateKey)
        } else if self.addresses.len() + 2 > i32::MAX || self.payment_infos.len() >= i32::MAX
            || self.customers.len() >= i32::MAX {
            Some(StorageError::OutOfRange)
        } else {
            None
        }
    }

    /// Whether `after` is these tables with a newly registered customer: the
    /// shipping address and the billing address stored as two new rows, whether or
    /// not the same content is stored already, then the payment record, then the
    /// customer with the two as defaults.
    pub open spec fn customer_registered(
        self,
        after: Tables,
        email: Seq<char>,
        name: Seq<char>,
        password_hash: Seq<char>,
        address: Address,
        payment_info: PaymentInfo,
        customer_id: i32,
    ) -> bool {
        let shipping_id = (self.addresses.len() + 1) as i32;
        let billing_id = (self.addresses.len() + 2) as i32;
        &&& after == (Tables {
            addresses: self.addresses.push(AddressRow { address_id: shipping_id, address }).push(
                AddressRow { address_id: billing_id, address: payment_info.billing_address },
            ),
            payment_infos: after.payment_infos,
            customers: after.customers,
            ..self
        })
        &&& after.payment_infos.len() == self.payment_infos.len() + 1
        &&& after.payment_infos.drop_last() == self.payment_infos
        &&& payment_row_of(
            after.payment_infos.last(),
            after.payment_infos.len() as i32,
            payment_info,
            billing_id,
        )
        &&& after.customers.len() == self.customers.len() + 1
        &&& after.customers.drop_last() == self.customers
        &&& customer_id == after.customers.len()
        &&& after.customers.last().customer_id == customer_id
        &&& after.customers.last().name@ == name
        &&& after.customers.last().email@ == email
        &&& after.customers.last().password_hash@ == password_hash
        &&& after.customers.last().default_shipping_address == shipping_id
        &&& after.customers.last().default_payment_info_id == after.payment_infos.len()
    }

    /// Whether `after` is these tables with a newly registered customer, stored with
    /// some hash that bcrypt accepts the password for.
    pub open spec fn customer_registered_with_some_hash(
        self,
        after: Tables,
        email: Seq<char>,
        password: Seq<char>,
        name: Seq<char>,
        address: Address,
        payment_info: PaymentInfo,
        customer_id: i32,
    ) -> bool {
        exists|password_hash: Seq<char>|
            #[trigger] self.customer_registered(
                after,
                email,
                name,
                password_hash,
                address,
                payment_info,
                customer_id,
            ) && bcrypt_verdict(password, password_hash) == Some(true)
    }

    /// Whether `after` is these tables with a newly registered owner, stored with
    /// some hash that bcrypt accepts the password for.
    pub open spec fn owner_registered_with_some_hash(
        self,
        after: Tables,
        email: Seq<char>,
        password: Seq<char>,
        name: Seq<char>,
        owner_id: i32,
    ) -> bool {
        exists|password_hash: Seq<char>|
            #[trigger] self.owner_registered(after, email, name, password_hash, owner_id)
                && bcrypt_verdict(password, password_hash) == Some(true)
    }

    /// Why an owner cannot be registered, if anything keeps it.
    pub open spec fn owner_registration_fault(self, email: Seq<char>) -> Option<StorageError> {
        if self.owner_by_email(email) is Some {
            Some(StorageError::DuplicateKey)
        } else if self.owners.len() >= i32::MAX {
            Some(StorageError::OutOfRange)
        } else {
            None
        }
    }

    /// Whether `after` is these tables with a newly registered owner.
    pub open spec fn owner_registered(
        self,
        after: Tables,
        email: Seq<char>,
        name: Seq<char>,
        password_hash: Seq<char>,
        owner_id: i32,
    ) -> bool {
        &&& after == (Tables { owners: after.owners, ..self })
        &&& after.owners.len() == self.owners.len() + 1
        &&& after.owners.drop_last() == self.owners
        &&& owner_id == after.owners.len()
        &&& after.owners.last().owner_id == owner_id
        &&& after.owners.last().name@ == name
        &&& after.owners.last().email@ == email
        &&& after.owners.last().password_hash@ == password_hash
    }
}

/// A customer who has just been registered is the customer that the email finds,
/// and bcrypt accepts the password for the stored hash: logging in with the same
/// email and password gives the customer's identifier.
pub proof fn lemma_registered_customer_logs_in(
    before: Tables,
    after: Tables,
    email: Seq<char>,
    password: Seq<char>,
    name: Seq<char>,
    address: Address,
    payment_info: PaymentInfo,
    customer_id: i32,
)
    requires
        before.registration_fault(email) is None,
        before.customer_registered_with_some_hash(
            after,
            email,
            password,
            name,
            address,
            payment_info,
            customer_id,
        ),
    ensures
        after.customer_by_email(email) matches Some(row) && row.customer_id == customer_id
            && bcrypt_verdict(password, row.password_hash@) == Some(true),
{
    let p = customer_has_email(email);
    lemma_first_from(before.customers, p, 0);
    let at = before.customers.len() as int;
    assert(p(after.customers[at]));
    assert forall|i: int| 0 <= i < at implies !p(#[trigger] after.customers[i]) by {
        assert(after.customers[i] == after.customers.drop_last()[i]);
        assert(!p(before.customers[i]));
    }
    crate::db::search::lemma_first_index_is(after.customers, p, at);
}

/// An owner who has just been registered can log in with the same email and
/// password.
pub proof fn lemma_registered_owner_logs_in(
    before: Tables,
    after: Tables,
    email: Seq<char>,
    password: Seq<char>,
    name: Seq<char>,
    owner_id: i32,
)
    requires
        before.owner_registration_fault(email) is None,
        before.owner_registered_with_some_hash(after, email, password, name, owner_id),
    ensures
        after.owners.len() > 0,
        after.owner_by_email(email) matches Some(row) && row.owner_id == owner_id
            && bcrypt_verdict(password, row.password_hash@) == Some(true),
{
    let p = owner_has_email(email);
    lemma_first_from(before.owners, p, 0);
    let at = before.owners.len() as int;
    assert(p(after.owners[at]));
    assert forall|i: int| 0 <= i < at implies !p(#[trigger] after.owners[i]) by {
        assert(after.owners[i] == after.owners.drop_last()[i]);
        assert(!p(before.owners[i]));
    }
    crate::db::search::lemma_first_index_is(after.owners, p, at);
}

fn find_customer_by_email(store: &Store, email: &String) -> (r: Option<usize>)
    ensures
        match r {
            Some(at) => at < store@.customers.len() && store@.customer_by_email(email@) == Some(
                store@.customers[at as int],
            ),
            None => store@.customer_by_email(email@) is None,
        },
{
    let mut i: usize = 0;
    while i < store.customers.len()
        invariant
            i <= store.customers.len(),
            first_index(store.customers@, customer_has_email(email@)) == first_from(
                store.customers@,
                customer_has_email(email@),
                i as int,
            ),
        decreases store.customers.len() - i,
    {
        if store.customers[i].email == *email {
            return Some(i);
        }
        i = i + 1;
    }
    None
}

fn find_owner_by_email(store: &Store, email: &String) -> (r: Option<usize>)
    ensures
        match r {
            Some(at) => at < store@.owners.len() && store@.owner_by_email(email@) == Some(
                store@.owners[at as int],
            ),
            None => store@.owner_by_email(email@) is None,
        },
{
    let mut i: usize = 0;
    while i < store.owners.len()
        invariant
            i <= store.owners.len(),
            first_index(store.owners@, owner_has_email(email@)) == first_from(
                store.owners@,
                owner_has_email(email@),
                i as int,
            ),
        decreases store.owners.len() - i,
    {
        if store.owners[i].email == *email {
            return Some(i);
        }
        i = i + 1;
    }
    None
}

/// What a login comes to once bcrypt has compared the password with the account's
/// hash: the account where the password fits, a credential error where it does
/// not, and a bcrypt error where bcrypt failed.
pub fn login_verdict<T>(account: T, compared: Result<bool, bcrypt::BcryptError>) -> (r: Result<
    T,
    LoginError,
>)
    ensures
        match compared {
            Ok(true) => r matches Ok(who) && who == account,
            Ok(false) => r matches Err(LoginError::CredentialError),
            Err(cause) => r matches Err(LoginError::BCryptError(e)) && e == cause,
        },
{
    match compared {
        Ok(true) => Ok(account),
        Ok(false) => Err(LoginError::CredentialError),
        Err(cause) => Err(LoginError::BCryptError(cause)),
    }
}

/// Checks a password against the hash of an account, with bcrypt.
pub fn check_password<T>(account: T, password: &str, password_hash: &str) -> (r: Result<T, LoginError>)
    ensures
        login_outcome(account, bcrypt_verdict(password@, password_hash@), r),
{
    login_verdict(account, bcrypt_verify(password, password_hash))
}

/// Logs a customer in: the identifier of the customer with this email, if the
/// password fits the stored hash.
pub fn validate_customer_login(store: &Store, email: &str, password: &str) -> (r: Result<
    PostgresInt,
    LoginError,
>)
    ensures
        match store@.customer_by_email(email@) {
            None => r matches Err(LoginError::CredentialError),
            Some(row) => login_outcome(
                row.customer_id,
                bcrypt_verdict(password@, row.password_hash@),
                r,
            ),
        },
{
    let email = email.to_owned();
    match find_customer_by_email(store, &email) {
        Some(at) => check_password(
            store.customers[at].customer_id,
            password,
            store.customers[at].password_hash.as_str(),
        ),
        None => Err(LoginError::CredentialError),
    }
}

/// Whether any owner account exists.
pub fn owner_exists(store: &Store) -> (r: Result<bool, StorageError>)
    ensures
        r == Ok::<bool, StorageError>(store@.owners.len() > 0),
{
    Ok(store.owners.len() > 0)
}

/// The email of the built-in owner.
pub open spec fn default_owner_email() -> Seq<char> {
    "admin@local"@
}

/// The password of the built-in owner.
pub open spec fn default_owner_password() -> Seq<char> {
    "default"@
}

/// Whether email and password are those of the built-in owner.
pub fn is_default_owner(email: &str, password: &str) -> (r: bool)
    ensures
        r == (email@ == default_owner_email() && password@ == default_owner_password()),
{
    email.to_owned() == String::from_str("admin@local") && password.to_owned() == String::from_str(
        "default",
    )
}

/// Logs an owner in. While no owner account exists, only the built-in owner can
/// log in; once one exists, only owner accounts can.
pub fn validate_owner_login(store: &Store, email: &str, password: &str) -> (r: Result<
    OwnerLoginType,
    LoginError,
>)
    ensures
        if store@.owners.len() == 0 {
            if email@ == default_owner_email() && password@ == default_owner_password() {
                r matches Ok(OwnerLoginType::DefaultOwner)
            } else {
                r matches Err(LoginError::CredentialError)
            }
        } else {
            match store@.owner_by_email(email@) {
                None => r matches Err(LoginError::CredentialError),
                Some(row) => login_outcome(
                    OwnerLoginType::OwnerAccount(row.owner_id),
                    bcrypt_verdict(password@, row.password_hash@),
                    r,
                ),
            }
        },
{
    if store.owners.len() == 0 {
        if is_default_owner(email, password) {
            Ok(OwnerLoginType::DefaultOwner)
        } else {
            Err(LoginError::CredentialError)
        }
    } else {
        let email = email.to_owned();
        match find_owner_by_email(store, &email) {
            Some(at) => check_password(
                OwnerLoginType::OwnerAccount(store.owners[at].owner_id),
                password,
                store.owners[at].password_hash.as_str(),
            ),
            None => Err(LoginError::CredentialError),
        }
    }
}

/// The customer with this identifier, as the order engine needs it.
pub fn get_customer(store: &Store, customer_id: PostgresInt) -> (r: Result<
    Option<Customer>,
    StorageError,
>)
    ensures
        r == Ok::<Option<Customer>, StorageError>(store@.customer_entity(customer_id)),
{
    match store.customer_row(customer_id) {
        Some(row) => Ok(
            Some(
                Customer {
                    name: row.name.clone(),
                    email: row.email.clone(),
                    default_shipping_address_id: row.default_shipping_address,
                    default_payment_info_id: row.default_payment_info_id,
                },
            ),
        ),
        None => Ok(None),
    }
}

/// The customer with this identifier, with the registered address and card written
/// out.
pub fn get_customer_info(store: &Store, customer_id: PostgresInt) -> (r: Result<
    Option<crate::schema::joined::Customer>,
    StorageError,
>)
    ensures
        r == Ok::<Option<crate::schema::joined::Customer>, StorageError>(
            store@.customer_info(customer_id),
        ),
{
    let row = match store.customer_row(customer_id) {
        Some(row) => row,
        None => {
            return Ok(None);
        },
    };
    let shipping = match store.address_row(row.default_shipping_address) {
        Some(shipping) => shipping,
        None => {
            return Ok(None);
        },
    };
    let payment = match store.payment_row(row.default_payment_info_id) {
        Some(payment) => payment,
        None => {
            return Ok(None);
        },
    };
    let billing = match store.address_row(payment.billing_address_id) {
        Some(billing) => billing,
        None => {
            return Ok(None);
        },
    };
    Ok(
        Some(
            crate::schema::joined::Customer {
                name: row.name.clone(),
                email: row.email.clone(),
                street_address: shipping.address.street_address.clone(),
                postal_code: shipping.address.postal_code.clone(),
                province: shipping.address.province.clone(),
                name_on_card: payment.name_on_card.clone(),
                expiry: payment.expiry.clone(),
                billing_street_address: billing.address.street_address.clone(),
                billing_postal_code: billing.address.postal_code.clone(),
                billing_province: billing.address.province.clone(),
            },
        ),
    )
}

/// Registers a customer whose password has been hashed: stores the shipping
/// address, the payment record with its billing address, and the customer, all
/// of them or none. The addresses are stored as new rows even where rows with the
/// same content exist.
pub fn register_customer(
    store: &mut Store,
    email: &str,
    name: &str,
    password_hash: String,
    address: Address,
    payment_info: PaymentInfo,
) -> (r: Result<PostgresInt, StorageError>)
    requires
        old(store)@.wf(),
    ensures
        final(store)@.wf(),
        match old(store)@.registration_fault(email@) {
            Some(fault) => r == Err::<PostgresInt, StorageError>(fault) && final(store)@ == old(
                store,
            )@,
            None => r matches Ok(id) && old(store)@.customer_registered(
                final(store)@,
                email@,
                name@,
                password_hash@,
                address,
                payment_info,
                id,
            ),
        },
{
    let email = email.to_owned();
    if find_customer_by_email(store, &email).is_some() {
        return Err(StorageError::DuplicateKey);
    }
    if store.addresses.len() >= (i32::MAX - 1) as usize || store.payment_infos.len()
        >= i32::MAX as usize || store.customers.len() >= i32::MAX as usize {
        return Err(StorageError::OutOfRange);
    }
    let default_shipping_address = match try_add_address(store, address) {
        Ok(id) => id,
        Err(e) => {
            return Err(e);
        },
    };
    let default_payment_info_id = match try_add_payment_info(store, payment_info) {
        Ok(id) => id,
        Err(e) => {
            return Err(e);
        },
    };
    let customer_id = (store.customers.len() + 1) as i32;
    let row = CustomerRow {
        customer_id,
        name: name.to_owned(),
        email,
        password_hash,
        default_shipping_address,
        default_payment_info_id,
    };
    proof {
        lemma_numbered_push(store@.customers, customer_number(), row);
    }
    store.customers.push(row);
    proof {
        assert(store@.customers.drop_last() =~= old(store)@.customers);
    }
    Ok(customer_id)
}

/// Registers a customer. The password is hashed with bcrypt before anything is
/// stored; where bcrypt fails nothing is stored.
pub fn try_create_new_customer(
    store: &mut Store,
    email: &str,
    password: &str,
    name: &str,
    address: Address,
    payment_info: PaymentInfo,
) -> (r: Result<PostgresInt, LoginError>)
    requires
        old(store)@.wf(),
    ensures
        final(store)@.wf(),
        match r {
            Ok(id) => old(store)@.registration_fault(email@) is None && old(
                store,
            )@.customer_registered_with_some_hash(
                final(store)@,
                email@,
                password@,
                name@,
                address,
                payment_info,
                id,
            ),
            Err(LoginError::DBError(fault)) => old(store)@.registration_fault(email@) == Some(fault)
                && final(store)@ == old(store)@,
            Err(_) => final(store)@ == old(store)@,
        },
        r matches Err(e) ==> e is DBError || e is BCryptError,
{
    let password_hash = match bcrypt_hash(password, HASH_COST) {
        Ok(hash) => hash,
        Err(cause) => {
            return Err(LoginError::BCryptError(cause));
        },
    };
    let ghost hashed = password_hash@;
    match register_customer(store, email, name, password_hash, address, payment_info) {
        Ok(id) => {
            assert(old(store)@.customer_registered(
                store@,
                email@,
                name@,
                hashed,
                address,
                payment_info,
                id,
            ) && bcrypt_verdict(password@, hashed) == Some(true));
            Ok(id)
        },
        Err(fault) => Err(LoginError::DBError(fault)),
    }
}

/// Registers an owner whose password has been hashed.
pub fn register_owner(store: &mut Store, email: &str, name: &str, password_hash: String) -> (r:
    Result<PostgresInt, StorageError>)
    requires
        old(store)@.wf(),
    ensures
        final(store)@.wf(),
        match old(store)@.owner_registration_fault(email@) {
            Some(fault) => r == Err::<PostgresInt, StorageError>(fault) && final(store)@ == old(
                store,
            )@,
            None => r matches Ok(id) && old(store)@.owner_registered(
                final(store)@,
                email@,
                name@,
                password_hash@,
                id,
            ),
        },
{
    let email = email.to_owned();
    if find_owner_by_email(store, &email).is_some() {
        return Err(StorageError::DuplicateKey);
    }
    if store.owners.len() >= i32::MAX as usize {
        return Err(StorageError::OutOfRange);
    }
    let owner_id = (store.owners.len() + 1) as i32;
    let row = OwnerRow { owner_id, email, name: name.to_owned(), password_hash };
    proof {
        lemma_numbered_push(store@.owners, owner_number(), row);
    }
    store.owners.push(row);
    proof {
        assert(store@.owners.drop_last() =~= old(store)@.owners);
    }
    Ok(owner_id)
}

/// Registers an owner. The password is hashed with bcrypt before anything is
/// stored.
pub fn try_create_new_owner(store: &mut Store, email: &str, password: &str, name: &str) -> (r: Result<
    PostgresInt,
    LoginError,
>)
    requires
        old(store)@.wf(),
    ensures
        final(store)@.wf(),
        match r {
            Ok(id) => old(store)@.owner_registration_fault(email@) is None && old(
                store,
            )@.owner_registered_with_some_hash(final(store)@, email@, password@, name@, id),
            Err(LoginError::DBError(fault)) => old(store)@.owner_registration_fault(email@) == Some(
                fault,
            ) && final(store)@ == old(store)@,
            Err(_) => final(store)@ == old(store)@,
        },
        r matches Err(e) ==> e is DBError || e is BCryptError,
{
    let password_hash = match bcrypt_hash(password, HASH_COST) {
        Ok(hash) => hash,
        Err(cause) => {
            return Err(LoginError::BCryptError(cause));
        },
    };
    let ghost hashed = password_hash@;
    match register_owner(store, email, name, password_hash) {
        Ok(id) => {
            assert(old(store)@.owner_registered(store@, email@, name@, hashed, id)
                && bcrypt_verdict(password@, hashed) == Some(true));
            Ok(id)
        },
        Err(fault) => Err(LoginError::DBError(fault)),
    }
}

} // verus!
