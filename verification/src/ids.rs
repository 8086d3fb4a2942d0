//! Fresh identifiers and the current time, the two things the library takes
//! from its surroundings when it creates a record.
use vstd::prelude::*;

verus! {

/// A lowercase hexadecimal digit.
pub open spec fn is_hex_digit(c: char) -> bool {
    ('0' <= c && c <= '9') || ('a' <= c && c <= 'f')
}

/// A string of 32 lowercase hexadecimal digits, the simple form of a UUID.
pub open spec fn is_simple_uuid(s: Seq<char>) -> bool {
    s.len() == 32 && forall|i: int| 0 <= i < s.len() ==> is_hex_digit(#[trigger] s[i])
}

/// A random version-4 UUID (`uuid::Uuid::new_v4`) in its simple form
/// (`Uuid::simple`), which the uuid documentation gives as 32 lowercase
/// hexadecimal digits without hyphens. Which digits come out is left open:
/// they are random.
#[verifier::external_body]
pub(crate) fn new_uuid_simple() -> (r: String)
    ensures
        is_simple_uuid(r@),
{
    uuid::Uuid::new_v4().simple().to_string()
}

/// The current time (`chrono::Utc::now`) in nanoseconds since the Unix
/// epoch (`DateTime::timestamp_nanos_opt`, which gives `None` for a time
/// that such a count in an `i64` cannot hold, outside the years 1677 to
/// 2262). Nothing is stated of the value: it is the clock's.
#[verifier::external_body]
fn clock_nanos() -> (r: Option<i64>) {
    chrono::Utc::now().timestamp_nanos_opt()
}

/// The current time in nanoseconds since the Unix epoch. A clock reading
/// that the count cannot hold is taken as the latest time it holds.
pub(crate) fn now_nanos() -> (r: i64) {
    match clock_nanos() {
        Some(t) => t,
        None => i64::MAX,
    }
}

} // verus!
