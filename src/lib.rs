//! Session-based access control and the data model of a link-sharing service.

mod auth;
mod cookie;
mod login;
mod model;
mod response;
mod session;
mod store;
mod text;

pub use auth::{
    authenticate, lemma_auth_fails_closed, lemma_issued_token_accepted, lemma_revoked_token_rejected,
    logout,
};
pub use cookie::parse_session_token;
pub use login::{login, verify_pwd_hash};
pub use model::{CacheEntry, Link, LinkGroup, LoginForm, LoginResponse, User};
pub use response::{ApiResponse, BizCode};
pub use session::{
    lemma_absent_token_stays_absent, lemma_distinct_draws_distinct_tokens,
    lemma_issued_token_keeps_resolving, lemma_issued_token_resolves, lemma_revoke_idempotent,
    lemma_revoked_token_stays_revoked, lemma_sessions_issued_in_turn, lemma_token_of_is_token,
    lemma_untouched_token_kept, token_from_draws, SessionEvent, SessionStore, TOKEN_LEN,
    TOKEN_SYMBOLS,
};
pub use store::{
    affected, created, fetched, group_with_details, DriverFault, GroupDetails, LinkDetail,
    StoreError,
};
