//! Bearer-token authentication of API requests.

use vstd::prelude::*;
use crate::text::{has_prefix, starts_with, str_eq};

verus! {

/// The user on whose behalf a request is made.
pub struct User {
    pub id: u128,
    pub email: String,
    pub name: String,
}

/// The token carried by an `Authorization` header value, if it is a bearer
/// credential.
pub open spec fn bearer_of(header: Seq<char>) -> Option<Seq<char>> {
    if has_prefix(header, "Bearer "@) {
        Some(header.subrange("Bearer "@.len() as int, header.len() as int))
    } else {
        None
    }
}

/// Takes the token out of an `Authorization` header value of the form
/// `Bearer <token>`.
pub fn bearer_token(header: &str) -> (r: Option<&str>)
    ensures
        match bearer_of(header@) {
            Some(t) => r is Some && r->Some_0@ == t,
            None => r is None,
        },
{
    if !starts_with(header, "Bearer ") {
        return None;
    }
    let start = "Bearer ".unicode_len();
    Some(header.substring_char(start, header.unicode_len()))
}

/// The user a token stands for, under the identifier `id`; only the one
/// accepted token stands for a user.
pub fn validate_token(token: &str, id: u128) -> (r: Option<User>)
    ensures
        token@ == "valid-token"@ ==> r is Some && r->Some_0.id == id && r->Some_0.email@ == "user@example.com"@
            && r->Some_0.name@ == "Test User"@,
        token@ != "valid-token"@ ==> r is None,
{
    if str_eq(token, "valid-token") {
        Some(User { id, email: String::from_str("user@example.com"), name: String::from_str("Test User") })
    } else {
        None
    }
}

/// Authenticates a request by its `Authorization` header value, if it has
/// one; the user gets the identifier `id`.
pub fn authenticate(header: Option<&str>, id: u128) -> (r: Option<User>)
    ensures
        r is Some <==> (header is Some && bearer_of(header->Some_0@) is Some && bearer_of(header->Some_0@)->Some_0
            == "valid-token"@),
        r is Some ==> r->Some_0.id == id,
{
    match header {
        None => None,
        Some(h) => match bearer_token(h) {
            None => None,
            Some(t) => validate_token(t, id),
        },
    }
}

} // verus!
