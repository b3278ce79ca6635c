//! Credential and session-authentication core: validated credentials, the
//! user, revoked-token and second-factor stores, session tokens, and the
//! signup / login / second-factor / logout / token-check operations.

pub mod api_error;
pub mod data_stores;
pub mod email;
pub mod hashmap_two_fa_code_store;
pub mod hashset_banned_token_store;
pub mod hashmap_user_store;
pub mod keyed;
pub mod password;
pub mod routes;
pub mod token;
