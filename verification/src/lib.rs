//! A small multi-tenant backend core: users and contacts guarded by
//! token-based bearer authentication with role-based authorization.
//!
//! The store is an in-memory model of the relational tables; credential
//! hashing and token signing are delegated to outside crates behind
//! trusted wrappers, and everything around them is verified.
use vstd::prelude::*;
use vstd::string::StringExecFns;

pub mod auth;
pub mod claims;
pub mod contact;
pub mod decimal;
pub mod error;
pub mod store;
pub mod token;
pub mod user;

verus! {

/// Compare two string slices by contents.
pub fn str_eq(a: &str, b: &str) -> (r: bool)
    ensures
        r == (a@ == b@),
{
    String::from_str(a) == String::from_str(b)
}

/// A form value that passed validation at extraction time.
#[derive(Debug, Clone, Copy, Default)]
pub struct ValidatedForm<T>(pub T);

/// Prefix every route path with the common API prefix.
pub fn route(path_param: String) -> (r: String)
    ensures
        r@ == "/api"@ + path_param@,
{
    String::from_str("/api").concat(path_param.as_str())
}

} // verus!
