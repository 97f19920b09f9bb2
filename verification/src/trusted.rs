//! The few calls that leave the verified core: random identifier generation,
//! identifier parsing and rendering from the `uuid` crate, a well-formedness
//! check on metadata text from `serde_json`, and the system clock.

use vstd::prelude::*;

verus! {

/// The 128-bit value that `uuid::Uuid::try_parse` reads from the text `s`,
/// or `None` where the text is not a uuid. The result depends on the
/// characters alone.
pub uninterp spec fn uuid_text_value(s: Seq<char>) -> Option<u128>;

/// Whether `s` is a well-formed JSON document, as `serde_json` decides it.
/// The result depends on the characters alone.
pub uninterp spec fn json_wellformed(s: Seq<char>) -> bool;

/// Relies on `uuid::Uuid::new_v4` (and `as_u128`): a version-4 identifier has
/// its version and variant bits masked in, so it is neither the all-zero nor
/// the all-one-bits value.
#[verifier::external_body]
pub(crate) fn fresh_uuid_bits() -> (r: u128)
    ensures
        r != 0,
        r != u128::MAX,
{
    uuid::Uuid::new_v4().as_u128()
}

/// Relies on `uuid::Uuid::try_parse` (and `as_u128`): the value read from the
/// text depends on its characters alone.
#[verifier::external_body]
pub(crate) fn parse_uuid_bits(s: &str) -> (r: Option<u128>)
    ensures
        r == uuid_text_value(s@),
{
    match uuid::Uuid::try_parse(s) {
        Ok(u) => Some(u.as_u128()),
        Err(_) => None,
    }
}

/// Relies on `serde_json::from_str::<serde_json::Value>`: whether the text
/// parses as JSON depends on its characters alone.
#[verifier::external_body]
pub(crate) fn json_text_wellformed(s: &str) -> (r: bool)
    ensures
        r == json_wellformed(s@),
{
    serde_json::from_str::<serde_json::Value>(s).is_ok()
}

/// Relies on `std::time::SystemTime::now` and the duration since
/// `std::time::UNIX_EPOCH`: milliseconds of wall-clock time, non-negative
/// whenever the clock stands at or after the epoch (and clamped to zero
/// where it does not).
#[verifier::external_body]
pub(crate) fn now_unix_millis() -> (r: i64)
    ensures
        r >= 0,
{
    match std::time::SystemTime::now().duration_since(std::time::UNIX_EPOCH) {
        Ok(d) => i64::try_from(d.as_millis()).unwrap_or(i64::MAX),
        Err(_) => 0,
    }
}

} // verus!
