use isekai_links::{token_from_draws, SessionStore, TOKEN_LEN, TOKEN_SYMBOLS};
use std::collections::HashSet;

fn is_alphanumeric_token(t: &str) -> bool {
    t.chars().count() == TOKEN_LEN && t.chars().all(|c| c.is_ascii_alphanumeric())
}

#[test]
fn issued_token_has_32_alphanumeric_chars() {
    let mut store = SessionStore::new();
    let token = store.add_session("alice");
    assert_eq!(token.len(), 32);
    assert!(is_alphanumeric_token(&token));
}

#[test]
fn issued_token_resolves_to_its_user() {
    let mut store = SessionStore::new();
    let a = store.add_session("alice");
    let b = store.add_session("bob");
    assert_eq!(store.get_user(&a), Some("alice".to_string()));
    assert_eq!(store.get_user(&b), Some("bob".to_string()));
    assert!(store.has_session(&a));
    assert!(store.has_session(&b));
}

#[test]
fn many_sessions_get_distinct_tokens() {
    let mut store = SessionStore::new();
    let mut seen = HashSet::new();
    for i in 0..2000 {
        let user = format!("user{}", i);
        let token = store.add_session(&user);
        assert!(is_alphanumeric_token(&token));
        assert_eq!(store.get_user(&token), Some(user));
        seen.insert(token);
    }
    assert_eq!(seen.len(), 2000);
}

#[test]
fn tokens_use_the_whole_alphabet() {
    let mut store = SessionStore::default();
    let mut seen = HashSet::new();
    for _ in 0..200 {
        for c in store.add_session("carol").chars() {
            seen.insert(c);
        }
    }
    assert!(seen.iter().any(|c| c.is_ascii_digit()));
    assert!(seen.iter().any(|c| c.is_ascii_lowercase()));
    assert!(seen.iter().any(|c| c.is_ascii_uppercase()));
    assert!(seen.len() > 40);
}

#[test]
fn unknown_token_resolves_to_nothing() {
    let store = SessionStore::new();
    assert_eq!(store.get_user("nope"), None);
    assert_eq!(store.get_user(""), None);
    assert!(!store.has_session("nope"));
}

#[test]
fn revoking_twice_returns_user_then_nothing() {
    let mut store = SessionStore::new();
    let t = store.add_session("alice");
    let other = store.add_session("bob");
    assert_eq!(store.remove_session(&t), Some("alice".to_string()));
    assert_eq!(store.remove_session(&t), None);
    assert_eq!(store.get_user(&t), None);
    assert!(!store.has_session(&t));
    assert_eq!(store.get_user(&other), Some("bob".to_string()));
}

#[test]
fn same_user_may_hold_several_sessions() {
    let mut store = SessionStore::new();
    let a = store.add_session("alice");
    let b = store.add_session("alice");
    assert_ne!(a, b);
    store.remove_session(&a);
    assert_eq!(store.get_user(&b), Some("alice".to_string()));
}

#[test]
fn draws_spell_digits_then_lower_then_upper() {
    let mut draws = vec![0usize, 9, 10, 35, 36, 61];
    draws.resize(32, 0);
    let token = token_from_draws(&draws);
    assert_eq!(token, format!("09azAZ{}", "0".repeat(26)));
}

#[test]
fn every_draw_value_has_its_own_symbol() {
    let draws: Vec<usize> = (0..32).map(|i| (i * 2 + 1) % TOKEN_SYMBOLS).collect();
    assert_eq!(token_from_draws(&draws), "13579bdfhjlnprtvxzBDFHJLNPRTVXZ1");
    let all: Vec<char> = (0..TOKEN_SYMBOLS)
        .map(|c| {
            let mut d = vec![0usize; 32];
            d[5] = c;
            token_from_draws(&d).chars().nth(5).unwrap()
        })
        .collect();
    let s: String = all.into_iter().collect();
    assert_eq!(s, "0123456789abcdefghijklmnopqrstuvwxyzABCDEFGHIJKLMNOPQRSTUVWXYZ");
}

#[test]
fn different_draws_give_different_tokens() {
    let a = vec![7usize; 32];
    let mut b = a.clone();
    b[31] = 8;
    assert_ne!(token_from_draws(&a), token_from_draws(&b));
    assert_eq!(token_from_draws(&a), "7".repeat(32));
}
