use bookstore::endpoints::{create_session_token, session_token_of, SESSION_TOKEN_BYTES};
use bookstore::request_guards::state::{SessionTokens, SessionType};
use bookstore::request_guards::{
    check_customer_session, check_owner_session, default_owner_allowed,
    does_owner_session_token_exist, now_millis, session_expiry, Customer, Owner, OwnerCheck,
    OwnerType, CUST_SESSION_COOKIE_NAME, OWNER_SESSION_COOKIE_NAME, SESSION_MILLIS,
};

#[test]
fn sessions_are_kept_by_token() {
    let mut tokens = SessionTokens::new();
    assert_eq!(tokens.len(), 0);
    assert_eq!(tokens.get("a"), None);
    tokens.insert("a".to_string(), SessionType::Customer(1), 100);
    tokens.insert("b".to_string(), SessionType::Owner(2), 200);
    assert_eq!(tokens.get("a"), Some((SessionType::Customer(1), 100)));
    assert_eq!(tokens.get("b"), Some((SessionType::Owner(2), 200)));
    tokens.insert("a".to_string(), SessionType::DefaultOwner, 300);
    assert_eq!(tokens.len(), 2);
    assert_eq!(tokens.get("a"), Some((SessionType::DefaultOwner, 300)));
    tokens.remove("b");
    assert_eq!(tokens.get("b"), None);
    assert_eq!(tokens.len(), 1);
    tokens.remove("b");
    assert_eq!(tokens.len(), 1);
}

#[test]
fn a_customer_session_lasts_until_it_expires() {
    let mut tokens = SessionTokens::new();
    tokens.insert("c".to_string(), SessionType::Customer(5), 1000);
    tokens.insert("o".to_string(), SessionType::Owner(6), 1000);
    assert_eq!(check_customer_session(&mut tokens, None, 0), None);
    assert_eq!(check_customer_session(&mut tokens, Some("x"), 0), None);
    assert_eq!(check_customer_session(&mut tokens, Some("o"), 0), None);
    assert_eq!(
        check_customer_session(&mut tokens, Some("c"), 1000),
        Some(Customer { customer_id: 5 })
    );
    assert_eq!(tokens.len(), 2);
    assert_eq!(check_customer_session(&mut tokens, Some("c"), 1001), None);
    assert_eq!(tokens.get("c"), None);
    assert_eq!(check_customer_session(&mut tokens, Some("c"), 0), None);
}

#[test]
fn an_owner_session_is_checked_against_the_other_sessions() {
    let mut tokens = SessionTokens::new();
    tokens.insert("c".to_string(), SessionType::Customer(5), 1000);
    tokens.insert("d".to_string(), SessionType::DefaultOwner, 1000);
    assert!(!does_owner_session_token_exist(&tokens));
    assert_eq!(check_owner_session(&mut tokens, None, 0), OwnerCheck::Denied);
    assert_eq!(check_owner_session(&mut tokens, Some("x"), 0), OwnerCheck::Denied);
    assert_eq!(check_owner_session(&mut tokens, Some("c"), 0), OwnerCheck::Denied);
    assert_eq!(check_owner_session(&mut tokens, Some("d"), 0), OwnerCheck::AskStore);

    tokens.insert("o".to_string(), SessionType::Owner(6), 2000);
    assert!(does_owner_session_token_exist(&tokens));
    assert_eq!(
        check_owner_session(&mut tokens, Some("o"), 0),
        OwnerCheck::Granted(Owner { owner: OwnerType::OwnerAccount(6) })
    );
    assert_eq!(check_owner_session(&mut tokens, Some("d"), 0), OwnerCheck::Denied);
    assert_eq!(check_owner_session(&mut tokens, Some("d"), 1001), OwnerCheck::Denied);
    assert_eq!(tokens.get("d"), None);
    assert_eq!(check_owner_session(&mut tokens, Some("o"), 2001), OwnerCheck::Denied);
    assert!(!does_owner_session_token_exist(&tokens));
}

#[test]
fn the_built_in_owner_needs_a_store_without_owners() {
    assert_eq!(
        default_owner_allowed(Some(false)),
        Some(Owner { owner: OwnerType::DefaultOwner })
    );
    assert_eq!(default_owner_allowed(Some(true)), None);
    assert_eq!(default_owner_allowed(None), None);
}

#[test]
fn a_session_lasts_thirty_days() {
    assert_eq!(SESSION_MILLIS, 30 * 24 * 60 * 60 * 1000);
    assert_eq!(session_expiry(0), 2_592_000_000);
    assert_eq!(session_expiry(1_638_000_000_000), 1_640_592_000_000);
    assert_eq!(session_expiry(-2_592_000_000), 0);
    assert_eq!(session_expiry(i64::MAX), i64::MAX);
    assert_eq!(session_expiry(i64::MAX - 2_592_000_000), i64::MAX);
    assert_eq!(session_expiry(i64::MAX - 2_592_000_001), i64::MAX - 1);
    let now = now_millis();
    assert!(now > 1_700_000_000_000);
    assert!(now_millis() >= now);
}

#[test]
fn session_tokens_are_base64_of_32_bytes() {
    assert_eq!(session_token_of(&b"hello world".to_vec()), "aGVsbG8gd29ybGQ=");
    assert_eq!(session_token_of(&vec![]), "");
    assert_eq!(session_token_of(&vec![0xfb, 0xff]), "+/8=");
    let token = create_session_token();
    assert_eq!(token.len(), 44);
    assert_eq!(SESSION_TOKEN_BYTES, 32);
    assert_eq!(base64::decode(&token).unwrap().len(), SESSION_TOKEN_BYTES);
    assert_ne!(create_session_token(), token);
}

#[test]
fn cookies_have_their_names() {
    assert_eq!(CUST_SESSION_COOKIE_NAME, "lookinnabook_custsession");
    assert_eq!(OWNER_SESSION_COOKIE_NAME, "lookinnabook_ownersession");
}
