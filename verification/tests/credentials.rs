use tenant_todos::error::WebError;
use tenant_todos::storage::memory::MemoryStore;
use tenant_todos::storage::query::Query;
use tenant_todos::storage::reply::{Reply, Step};
use tenant_todos::web_app::client::{Client, PendingAuthorize};
use tenant_todos::web_app::credential::{credential, is_whitespace};
use tenant_todos::web_app::token::{find_usable, Token};

fn store_with_token(key: &str, tenant_id: i64, valid_to: i64) -> MemoryStore {
    let mut store = MemoryStore::new();
    store.add_client(Client::new(tenant_id, "alice".to_string()));
    store.add_token(Token::new(key.to_string(), tenant_id, valid_to));
    store
}

#[test]
fn credential_follows_the_scheme_word() {
    assert_eq!(credential(Some("token abc123")).unwrap(), "abc123");
    assert_eq!(credential(Some("Token abc123")).unwrap(), "abc123");
    assert_eq!(credential(Some("TOKEN abc123")).unwrap(), "abc123");
    assert_eq!(credential(Some("tOkEn\tabc123")).unwrap(), "abc123");
}

#[test]
fn credential_is_trimmed_and_keeps_its_case() {
    assert_eq!(credential(Some("token    AbC  ")).unwrap(), "AbC");
    assert_eq!(credential(Some("token \t a b \r\n")).unwrap(), "a b");
    assert_eq!(credential(Some("token \u{a0}\u{3000}k\u{2003}")).unwrap(), "k");
}

#[test]
fn absent_header_is_unauthorized() {
    assert!(matches!(credential(None), Err(WebError::Unauthorized)));
}

#[test]
fn wrong_scheme_is_unauthorized() {
    assert!(matches!(credential(Some("Bearer abc123")), Err(WebError::Unauthorized)));
    assert!(matches!(credential(Some("toke abc123")), Err(WebError::Unauthorized)));
    assert!(matches!(credential(Some(" token abc123")), Err(WebError::Unauthorized)));
    assert!(matches!(credential(Some("")), Err(WebError::Unauthorized)));
}

#[test]
fn scheme_without_whitespace_is_unauthorized() {
    assert!(matches!(credential(Some("tokenabc123")), Err(WebError::Unauthorized)));
    assert!(matches!(credential(Some("token")), Err(WebError::Unauthorized)));
    assert!(matches!(credential(Some("tokens abc")), Err(WebError::Unauthorized)));
}

#[test]
fn empty_credential_is_unauthorized() {
    assert!(matches!(credential(Some("token ")), Err(WebError::Unauthorized)));
    assert!(matches!(credential(Some("token   \t  ")), Err(WebError::Unauthorized)));
}

#[test]
fn whitespace_is_told_from_other_characters() {
    for c in [' ', '\t', '\n', '\u{b}', '\u{c}', '\r', '\u{85}', '\u{a0}', '\u{1680}', '\u{2000}',
        '\u{200a}', '\u{2028}', '\u{2029}', '\u{202f}', '\u{205f}', '\u{3000}'] {
        assert!(is_whitespace(c));
    }
    for c in ['a', '0', '\u{8}', '\u{e}', '\u{200b}', '\u{1f}', '\u{2001}'] {
        assert_eq!(is_whitespace(c), c.is_whitespace());
    }
    assert!(!is_whitespace('a'));
    assert!(!is_whitespace('\u{200b}'));
}

#[test]
fn token_is_not_usable_at_its_boundary() {
    let token = Token::new("k".to_string(), 1, 1_700_000_000_000_000);
    assert!(!token.is_usable(1_700_000_000_000_000));
    assert!(token.is_usable(1_699_999_999_999_999));
    assert!(!token.is_usable(1_700_000_000_000_001));
    assert!(token.is_usable(i64::MIN));
    assert!(!Token::new("k".to_string(), 1, i64::MIN).is_usable(i64::MIN));
}

#[test]
fn first_usable_token_is_found() {
    let tokens = vec![
        Token::new("k".to_string(), 1, 10),
        Token::new("k".to_string(), 2, 30),
        Token::new("k".to_string(), 3, 40),
    ];
    assert_eq!(find_usable(&tokens, 9), Some(0));
    assert_eq!(find_usable(&tokens, 10), Some(1));
    assert_eq!(find_usable(&tokens, 35), Some(2));
    assert_eq!(find_usable(&tokens, 40), None);
    assert_eq!(find_usable(&Vec::new(), 0), None);
}

#[test]
fn malformed_header_asks_storage_nothing() {
    for header in [None, Some("Bearer abc"), Some("token"), Some("token    "), Some("tokenabc")] {
        match Client::begin_authenticate(header, 0) {
            Step::Done(Err(WebError::Unauthorized)) => {},
            _ => panic!("a malformed header must end the authentication at once"),
        }
    }
}

#[test]
fn well_formed_header_asks_for_its_token() {
    match Client::begin_authenticate(Some("Token  opensesame "), 17) {
        Step::Ask(Query::TokensByKey { key }, PendingAuthorize::Token { now }) => {
            assert_eq!(key, "opensesame");
            assert_eq!(now, 17);
        },
        _ => panic!("a well-formed header must ask for the token"),
    }
}

#[test]
fn authentication_resolves_the_tenant() {
    let mut store = store_with_token("sesame", 7, 100);
    let client = Client::authenticate(Some("token sesame"), 99, &mut store).unwrap();
    assert_eq!(client.id(), 7);
    assert_eq!(client.display_name(), "alice");
}

#[test]
fn authentication_is_boundary_exclusive() {
    let mut store = store_with_token("sesame", 7, 100);
    assert!(Client::authenticate(Some("token sesame"), 99, &mut store).is_ok());
    assert!(matches!(
        Client::authenticate(Some("token sesame"), 100, &mut store),
        Err(WebError::Unauthorized)
    ));
    assert!(matches!(
        Client::authenticate(Some("token sesame"), 101, &mut store),
        Err(WebError::Unauthorized)
    ));
}

#[test]
fn credential_is_matched_exactly() {
    let mut store = store_with_token("Sesame", 7, 100);
    assert!(Client::authenticate(Some("token Sesame"), 0, &mut store).is_ok());
    assert!(matches!(
        Client::authenticate(Some("token sesame"), 0, &mut store),
        Err(WebError::Unauthorized)
    ));
    assert!(matches!(
        Client::authenticate(Some("token Sesam"), 0, &mut store),
        Err(WebError::Unauthorized)
    ));
}

#[test]
fn token_of_a_missing_tenant_is_unauthorized() {
    let mut store = MemoryStore::new();
    store.add_token(Token::new("sesame".to_string(), 7, 100));
    assert!(matches!(Client::authorize("sesame", 0, &mut store), Err(WebError::Unauthorized)));
}

#[test]
fn expired_token_does_not_hide_a_later_one() {
    let mut store = MemoryStore::new();
    store.add_client(Client::new(1, "old".to_string()));
    store.add_client(Client::new(2, "new".to_string()));
    store.add_token(Token::new("sesame".to_string(), 1, 10));
    store.add_token(Token::new("sesame".to_string(), 2, 20));
    assert_eq!(Client::authorize("sesame", 5, &mut store).unwrap().id(), 1);
    assert_eq!(Client::authorize("sesame", 10, &mut store).unwrap().id(), 2);
    assert!(matches!(Client::authorize("sesame", 20, &mut store), Err(WebError::Unauthorized)));
}

#[test]
fn authentication_machine_handles_every_answer() {
    let pending = PendingAuthorize::Token { now: 5 };
    match pending.resume(Reply::Tokens(vec![Token::new("k".to_string(), 9, 6)])) {
        Step::Ask(Query::ClientById { id }, PendingAuthorize::Tenant) => assert_eq!(id, 9),
        _ => panic!("a usable token must ask for its tenant"),
    }
    let pending = PendingAuthorize::Token { now: 6 };
    assert!(matches!(
        pending.resume(Reply::Tokens(vec![Token::new("k".to_string(), 9, 6)])),
        Step::Done(Err(WebError::Unauthorized))
    ));
    assert!(matches!(
        PendingAuthorize::Token { now: 6 }.resume(Reply::Failed),
        Step::Done(Err(WebError::StorageFailure))
    ));
    assert!(matches!(
        PendingAuthorize::Tenant.resume(Reply::Client(None)),
        Step::Done(Err(WebError::Unauthorized))
    ));
    assert!(matches!(
        PendingAuthorize::Tenant.resume(Reply::Affected(1)),
        Step::Done(Err(WebError::StorageFailure))
    ));
    match PendingAuthorize::Tenant.resume(Reply::Client(Some(Client::new(9, "n".to_string())))) {
        Step::Done(Ok(client)) => assert_eq!(client.id(), 9),
        _ => panic!("the tenant row must end the authentication"),
    }
}
