//! Typed addressing primitives: the 128-bit random identifier, the integer
//! store identifier, the combined `ResourceId`, the three-way lookup, the
//! creation timestamp, and the capability token for destructive deletes.

use vstd::prelude::*;
use crate::trusted::{fresh_uuid_bits, now_unix_millis, parse_uuid_bits, uuid_text_value};

verus! {

/// The integer id a record carries before its first successful persistence.
/// The store assigns real ids starting from 1, exactly once.
pub const UNREGISTERED: i32 = 0;

/// Errors that can occur when working with [`Uuid`].
#[derive(Debug)]
pub enum UuidError {
    /// The text was not a uuid, or named one of the two sentinel values.
    FromStringParse(String),
}

/// A 128-bit random resource identifier.
///
/// Valid iff it is neither the all-zero nor the all-one-bits sentinel value.
/// Every constructor and parse path of this crate yields only valid values.
#[derive(Clone, Copy, PartialEq, Eq, Structural, Debug, Hash)]
pub struct Uuid {
    pub bits: u128,
}

impl Uuid {
    /// Neither the all-zero nor the all-one-bits sentinel.
    pub open spec fn valid(self) -> bool {
        self.bits != 0 && self.bits != u128::MAX
    }

    /// Creates a fresh random identifier; never a sentinel value.
    pub fn new() -> (r: Uuid)
        ensures
            r.valid(),
    {
        Uuid { bits: fresh_uuid_bits() }
    }

    /// Checks that the identifier is in the valid range.
    pub fn is_valid(&self) -> (r: bool)
        ensures
            r == self.valid(),
    {
        self.bits != 0 && self.bits != u128::MAX
    }

    /// Reads an identifier from text. Fails on text that is not a uuid and
    /// on the two sentinel values, which no input-parsing path accepts.
    pub fn parse_str(s: &str) -> (r: Result<Uuid, UuidError>)
        ensures
            match r {
                Ok(u) => uuid_text_value(s@) == Some(u.bits) && u.valid(),
                Err(_) => uuid_text_value(s@) is None
                    || uuid_text_value(s@) == Some(0u128)
                    || uuid_text_value(s@) == Some(u128::MAX),
            },
    {
        match parse_uuid_bits(s) {
            Some(bits) => {
                let u = Uuid { bits };
                if u.is_valid() {
                    Ok(u)
                } else {
                    Err(UuidError::FromStringParse("uuid is a sentinel value".to_owned()))
                }
            },
            None => Err(UuidError::FromStringParse("text is not a uuid".to_owned())),
        }
    }
}

impl Default for Uuid {
    /// Creates a fresh random identifier.
    fn default() -> (r: Uuid)
        ensures
            r.valid(),
    {
        Uuid::new()
    }
}

/// The two-part identity of a persisted resource: the store-assigned integer
/// id and the random identifier handed out as the creation receipt.
#[derive(Clone, Copy, PartialEq, Eq, Structural, Debug)]
pub struct ResourceId {
    pub id: i32,
    pub uuid: Uuid,
}

/// The three ways an operation may address an existing resource. Resolution
/// always normalizes to a concrete [`ResourceId`] before use.
#[derive(Debug)]
pub enum ResourceLookup {
    /// Direct primary-key fetch.
    Id(i32),
    /// Fetch by the random identifier.
    Uuid(Uuid),
    /// Fetch by the human-readable locator text.
    Locator(String),
}

/// A UNIX timestamp in milliseconds.
#[derive(Clone, Copy, PartialEq, Eq, Structural, Debug, Hash)]
pub struct Timestamp {
    pub millis: i64,
}

impl Timestamp {
    /// The current wall-clock time.
    pub fn now() -> (r: Timestamp)
        ensures
            r.millis >= 0,
    {
        Timestamp { millis: now_unix_millis() }
    }

    pub fn from_millis(millis: i64) -> (r: Timestamp)
        ensures
            r.millis == millis,
    {
        Timestamp { millis }
    }

    pub fn as_millis(&self) -> (r: i64)
        ensures
            r == self.millis,
    {
        self.millis
    }
}

/// A capability value required by operations that bypass lock and
/// consistency checks and perform irreversible deletion. Its construction
/// marks every such call site.
pub struct DataLossToken {
    _proof_of_intent: bool,
}

impl DataLossToken {
    /// Constructing the token is the explicit, auditable acknowledgement
    /// that the guarded operation may destroy data irrecoverably.
    pub fn acknowledge_data_loss() -> DataLossToken {
        DataLossToken { _proof_of_intent: true }
    }
}

} // verus!
