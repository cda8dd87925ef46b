pub mod hashmap_user_store;
pub mod hashset_banned_token_store;
