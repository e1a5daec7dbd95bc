//! Access to the digital twin's read endpoints: the API key that callers
//! present as a bearer credential.
use crate::backend::api::auth::{bearer_credential, bearer_token};
use crate::text::str_eq;
use vstd::prelude::*;

verus! {

/// The `Authorization` header value `header` presents `key` as its bearer
/// credential.
pub open spec fn presents_key(header: Option<Seq<char>>, key: Seq<char>) -> bool {
    match header {
        Some(h) => bearer_credential(h) == Some(key),
        None => false,
    }
}

/// Checks the API key of a request: its `Authorization` header must read
/// `Bearer <key>` for the configured `key`.
pub fn validate_api_key(authorization: Option<&str>, key: &str) -> (ok: bool)
    ensures
        ok == presents_key(
            match authorization {
                Some(h) => Some(h@),
                None => None,
            },
            key@,
        ),
{
    match authorization {
        None => false,
        Some(h) => match bearer_token(h) {
            None => false,
            Some(t) => str_eq(t.as_str(), key),
        },
    }
}

} // verus!
