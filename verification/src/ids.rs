//! Fresh identifiers and the current time, from the `uuid` and `chrono`
//! crates.

use vstd::prelude::*;

verus! {

/// A fresh random identifier: `uuid::Uuid::new_v4()` in its hyphenated
/// text form, which the `uuid` documentation fixes at 36 characters
/// (8-4-4-4-12 hexadecimal digits). Which identifier comes back is chance.
#[verifier::external_body]
pub fn new_uuid() -> (r: String)
    ensures
        r@.len() == 36,
{
    uuid::Uuid::new_v4().to_string()
}

/// The current time as milliseconds since the Unix epoch
/// (`chrono::Utc::now().timestamp_millis()`). What comes back depends on the
/// clock, so nothing is stated of it.
#[verifier::external_body]
pub fn now_millis() -> (r: i64) {
    chrono::Utc::now().timestamp_millis()
}

} // verus!
