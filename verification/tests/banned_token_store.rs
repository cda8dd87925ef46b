use auth_service::domain::BannedTokenStore;
use auth_service::services::hashset_banned_token_store::HashsetBannedTokenStore;

#[test]
fn banned_token_is_banned_and_others_are_not() {
    let mut store = HashsetBannedTokenStore::default();
    assert!(!store.is_token_banned("token-a"));
    store.add_token("token-a".to_string());
    assert!(store.is_token_banned("token-a"));
    assert!(!store.is_token_banned("token-b"));
    store.add_token("token-b".to_string());
    assert!(store.is_token_banned("token-a"));
    assert!(store.is_token_banned("token-b"));
}

#[test]
fn banning_twice_keeps_one_entry() {
    let mut store = HashsetBannedTokenStore::new();
    store.add_token("t".to_string());
    store.add_token("t".to_string());
    assert!(store.is_token_banned("t"));
    assert_eq!(store.banned_tokens.len(), 1);
}
