use vstd::prelude::*;

verus! {

/// A registered account. `username` is unique among users.
#[derive(Debug, Clone, PartialEq, Eq)]
pub struct User {
    pub id: i64,
    pub username: String,
    pub pwd_hash: String,
    pub created_at: String,
}

/// A named, sluggable collection of links owned by one user. `slug` is
/// unique among groups and is the group's public lookup key.
#[derive(Debug, Clone, PartialEq, Eq)]
pub struct LinkGroup {
    pub id: i64,
    pub user_id: i64,
    pub name: String,
    pub slug: String,
    pub key: Option<String>,
    pub description: Option<String>,
    pub is_public: bool,
    pub cache_content: Option<String>,
    pub cache_refresh_interval: i32,
    pub cache_updated_at: String,
    pub created_at: String,
}

/// A single shared link. Every link belongs to exactly one group
/// (`group_id`); through it, to the group's owner.
#[derive(Debug, Clone, PartialEq, Eq)]
pub struct Link {
    pub id: i64,
    pub group_id: i64,
    pub type_: String,
    pub is_public: bool,
    pub name: Option<String>,
    pub slug: Option<String>,
    pub description: Option<String>,
    pub content: String,
    pub cache_content: Option<String>,
    pub cache_refresh_interval: i32,
    pub cache_updated_at: String,
    pub created_at: String,
}

/// A stored derived artifact (a rendered page, an aggregated feed). At most
/// one entry is associated with a given group or link at a time.
#[derive(Debug, Clone, PartialEq, Eq)]
pub struct CacheEntry {
    pub id: i64,
    pub slug: Option<String>,
    pub content: String,
    pub created_at: String,
    pub updated_at: String,
}

/// Credentials submitted at login.
#[derive(Debug, Clone)]
pub struct LoginForm {
    pub username: String,
    pub password: String,
}

/// What a successful login hands back: the new session token.
#[derive(Debug, Clone, PartialEq, Eq)]
pub struct LoginResponse {
    pub token: String,
}

} // verus!
