//! A stored API key.
use vstd::prelude::*;

verus! {

/// An API key as the store keeps it: by the hash of the key, never by the
/// key itself.
pub struct ApiKey {
    pub id: String,
    pub name: String,
    pub key_hash: String,
    pub created_at: String,
    pub last_used_at: Option<String>,
    pub is_active: bool,
}

} // verus!
