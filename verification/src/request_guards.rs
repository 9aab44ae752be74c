//! Who is asking: sessions are checked before a request reaches the store.
//!
//! A session token stands for a customer, an owner account, or the built-in
//! owner, until it expires. The built-in owner is let in only while no owner
//! account exists and no owner is logged in.

pub mod state;

use vstd::prelude::*;
use vstd::string::*;
use crate::db::search::{any_row, first_from, first_index, lemma_first_from};
use crate::request_guards::state::{
    session_of,
    without_token,
    ExpirationTime,
    Session,
    SessionTokens,
    SessionType,
};
use crate::schema::entities::PostgresInt;

verus! {

/// The name of the cookie that holds a customer's session token.
pub const CUST_SESSION_COOKIE_NAME: &'static str = "lookinnabook_custsession";

/// The name of the cookie that holds an owner's session token.
pub const OWNER_SESSION_COOKIE_NAME: &'static str = "lookinnabook_ownersession";

/// How long a session lasts: thirty days, in milliseconds.
pub const SESSION_MILLIS: i64 = 2_592_000_000;

/// Which owner is logged in.
#[derive(Debug, Clone, Copy, PartialEq, Eq, Structural)]
pub enum OwnerType {
    DefaultOwner,
    OwnerAccount(PostgresInt),
}

/// An owner who is logged in.
#[derive(Debug, Clone, Copy, PartialEq, Eq, Structural)]
pub struct Owner {
    pub owner: OwnerType,
}

/// A customer who is logged in.
#[derive(Debug, Clone, Copy, PartialEq, Eq, Structural)]
pub struct Customer {
    pub customer_id: PostgresInt,
}

/// What checking an owner's session comes to.
#[derive(Debug, Clone, Copy, PartialEq, Eq, Structural)]
pub enum OwnerCheck {
    /// The owner is let in.
    Granted(Owner),
    /// The request is refused.
    Denied,
    /// The session is the built-in owner's and no owner is logged in: whether it is
    /// let in depends on whether the store holds an owner account.
    AskStore,
}

/// The condition "this session is an owner account's".
pub open spec fn is_owner_session() -> spec_fn(Session) -> bool {
    |session: Session| session.session_type is Owner
}

/// Whether a session is over at the time `now`.
pub open spec fn is_expired(now: ExpirationTime, expires_at: ExpirationTime) -> bool {
    now > expires_at
}

/// The customer that a session stands for, if it stands for one.
pub open spec fn customer_of(session_type: SessionType) -> Option<Customer> {
    match session_type {
        SessionType::Customer(customer_id) => Some(Customer { customer_id }),
        _ => None,
    }
}

/// What an owner's session comes to while it lasts. The built-in owner is refused
/// as soon as an owner account is logged in.
pub open spec fn owner_check_of(session_type: SessionType, owner_logged_in: bool) -> OwnerCheck {
    match session_type {
        SessionType::Owner(owner_id) => OwnerCheck::Granted(
            Owner { owner: OwnerType::OwnerAccount(owner_id) },
        ),
        SessionType::DefaultOwner => if owner_logged_in {
            OwnerCheck::Denied
        } else {
            OwnerCheck::AskStore
        },
        SessionType::Customer(_) => OwnerCheck::Denied,
    }
}

/// When a session that starts at `now` ends.
pub open spec fn expiry_after(now: ExpirationTime) -> ExpirationTime {
    if now + SESSION_MILLIS > i64::MAX {
        i64::MAX
    } else {
        (now + SESSION_MILLIS) as i64
    }
}

/// Calls `chrono::Local::now` and reads it with `DateTime::timestamp_millis`. The
/// contract claims nothing of the time.
#[verifier::external_body]
fn clock_millis() -> ExpirationTime {
    chrono::Local::now().timestamp_millis()
}

/// The time it is now, in milliseconds since the epoch. Two calls may differ.
pub fn now_millis() -> ExpirationTime {
    clock_millis()
}

/// When a session that starts at `now` ends: thirty days later.
pub fn session_expiry(now: ExpirationTime) -> (r: ExpirationTime)
    ensures
        r == expiry_after(now),
{
    if now > i64::MAX - SESSION_MILLIS {
        i64::MAX
    } else {
        now + SESSION_MILLIS
    }
}

/// Whether any owner account is logged in.
pub fn does_owner_session_token_exist(session_tokens: &SessionTokens) -> (r: bool)
    ensures
        r == any_row(session_tokens@, is_owner_session()),
{
    let mut i: usize = 0;
    while i < session_tokens.len()
        invariant
            i <= session_tokens@.len(),
            first_index(session_tokens@, is_owner_session()) == first_from(
                session_tokens@,
                is_owner_session(),
                i as int,
            ),
        decreases session_tokens@.len() - i,
    {
        if let SessionType::Owner(_) = session_tokens.session_type_at(i) {
            proof {
                lemma_first_from(session_tokens@, is_owner_session(), i as int);
            }
            return true;
        }
        i = i + 1;
    }
    false
}

/// Checks the session of a request that must come from a customer. A request
/// without a cookie or with an unknown token is refused. An expired session is
/// refused and forgotten. Otherwise the session must be a customer's.
pub fn check_customer_session(
    session_tokens: &mut SessionTokens,
    cookie: Option<&str>,
    now: ExpirationTime,
) -> (r: Option<Customer>)
    ensures
        match cookie {
            None => r is None && final(session_tokens)@ == old(session_tokens)@,
            Some(token) => match session_of(old(session_tokens)@, token@) {
                None => r is None && final(session_tokens)@ == old(session_tokens)@,
                Some((session_type, expires_at)) => if is_expired(now, expires_at) {
                    r is None && final(session_tokens)@ == without_token(
                        old(session_tokens)@,
                        token@,
                    )
                } else {
                    r == customer_of(session_type) && final(session_tokens)@ == old(
                        session_tokens,
                    )@
                },
            },
        },
{
    let token = match cookie {
        Some(token) => token,
        None => {
            return None;
        },
    };
    let (session_type, expires_at) = match session_tokens.get(token) {
        Some(found) => found,
        None => {
            return None;
        },
    };
    if now > expires_at {
        session_tokens.remove(token);
        return None;
    }
    match session_type {
        SessionType::Customer(customer_id) => Some(Customer { customer_id }),
        _ => None,
    }
}

/// Checks the session of a request that must come from an owner. A request without
/// a cookie or with an unknown token is refused. An expired session is refused and
/// forgotten. Otherwise an owner account is let in, and the built-in owner is
/// refused where an owner account is logged in, and referred to the store where
/// none is.
pub fn check_owner_session(
    session_tokens: &mut SessionTokens,
    cookie: Option<&str>,
    now: ExpirationTime,
) -> (r: OwnerCheck)
    ensures
        match cookie {
            None => r == OwnerCheck::Denied && final(session_tokens)@ == old(session_tokens)@,
            Some(token) => match session_of(old(session_tokens)@, token@) {
                None => r == OwnerCheck::Denied && final(session_tokens)@ == old(session_tokens)@,
                Some((session_type, expires_at)) => if is_expired(now, expires_at) {
                    r == OwnerCheck::Denied && final(session_tokens)@ == without_token(
                        old(session_tokens)@,
                        token@,
                    )
                } else {
                    r == owner_check_of(
                        session_type,
                        any_row(old(session_tokens)@, is_owner_session()),
                    ) && final(session_tokens)@ == old(session_tokens)@
                },
            },
        },
{
    let token = match cookie {
        Some(token) => token,
        None => {
            return OwnerCheck::Denied;
        },
    };
    let (session_type, expires_at) = match session_tokens.get(token) {
        Some(found) => found,
        None => {
            return OwnerCheck::Denied;
        },
    };
    if now > expires_at {
        session_tokens.remove(token);
        return OwnerCheck::Denied;
    }
    match session_type {
        SessionType::Owner(owner_id) => OwnerCheck::Granted(
            Owner { owner: OwnerType::OwnerAccount(owner_id) },
        ),
        SessionType::DefaultOwner => {
            if does_owner_session_token_exist(session_tokens) {
                OwnerCheck::Denied
            } else {
                OwnerCheck::AskStore
            }
        },
        SessionType::Customer(_) => OwnerCheck::Denied,
    }
}

/// Whether the built-in owner is let in, once the store was asked whether an owner
/// account exists: only if the store answered, and answered no.
pub fn default_owner_allowed(owner_exists: Option<bool>) -> (r: Option<Owner>)
    ensures
        r == if owner_exists == Some(false) {
            Some(Owner { owner: OwnerType::DefaultOwner })
        } else {
            None
        },
{
    match owner_exists {
        Some(false) => Some(Owner { owner: OwnerType::DefaultOwner }),
        _ => None,
    }
}

} // verus!
