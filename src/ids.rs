//! Identifiers and timestamps, which come from the `uuid` and `chrono` crates.

use vstd::prelude::*;

verus! {

/// The canonical text of a workspace identifier.
pub uninterp spec fn uuid_text(id: u128) -> Seq<char>;

/// A fresh random identifier. Relies on `uuid::Uuid::new_v4`, of whose
/// result nothing can be promised.
#[verifier::external_body]
pub fn generate_id() -> (r: u128) {
    uuid::Uuid::new_v4().as_u128()
}

/// Relies on `uuid`'s `Display` for `Uuid`: the lower-case hyphenated form,
/// which depends on the value alone and is 36 characters long.
#[verifier::external_body]
pub(crate) fn id_text(id: u128) -> (r: String)
    ensures
        r@ == uuid_text(id),
        r@.len() == 36,
{
    uuid::Uuid::from_u128(id).to_string()
}

/// Relies on `chrono::Utc::now` and `DateTime::timestamp_millis`: the wall
/// clock in milliseconds since the epoch, of which nothing can be promised.
#[verifier::external_body]
pub(crate) fn now_millis() -> (r: i64) {
    chrono::Utc::now().timestamp_millis()
}

} // verus!
