//! Classification and rendering of an expiry argument: a small number is a
//! relative count of hours, a large one an absolute timestamp in epoch
//! milliseconds.

use vstd::prelude::*;

use crate::decimal::{i64_to_dec, spec_int_dec};

verus! {

/// Largest value that is read as a relative expiry in hours; anything above
/// is an absolute timestamp in milliseconds since the epoch.
pub const MAX_EXPIRY_HOURS: i64 = 24 * 30;

/// When a URL should expire: in a number of hours, or at an absolute instant
/// given in milliseconds since the epoch.
#[derive(Clone, Copy, Debug, PartialEq, Eq, Structural)]
pub enum Expiry {
    /// Delete after this many hours.
    Hours(i64),
    /// Delete at this instant, in epoch milliseconds.
    Timestamp(i64),
}

/// Why an expiry argument was rejected.
#[derive(Clone, Copy, Debug, PartialEq, Eq, Structural)]
pub enum ExpiryError {
    /// The value is above the hour threshold but is not a representable
    /// timestamp.
    InvalidTimestamp,
}

/// The milliseconds that lie within jiff's supported timestamp range, the
/// instants from the start of year -9999 to the end of year 9999 with room
/// for any legal time-zone offset.
pub open spec fn spec_ms_in_timestamp_range(ms: i64) -> bool {
    -377705023201000 <= ms <= 253402207200000
}

/// Relies on jiff::Timestamp::from_millisecond: it is a semver guarantee of
/// jiff that the call returns Ok exactly when the argument lies between
/// Timestamp::MIN and Timestamp::MAX, which in milliseconds is the range of
/// spec_ms_in_timestamp_range.
#[verifier::external_body]
fn timestamp_ms_valid(ms: i64) -> (r: bool)
    ensures
        r == spec_ms_in_timestamp_range(ms),
{
    jiff::Timestamp::from_millisecond(ms).is_ok()
}

/// Decides whether a raw expiry value means hours or an absolute timestamp,
/// by comparing it against the fixed hour threshold.
pub fn classify_expiry(value: i64) -> (r: Result<Expiry, ExpiryError>)
    ensures
        value <= MAX_EXPIRY_HOURS ==> r == Ok::<Expiry, ExpiryError>(Expiry::Hours(value)),
        value > MAX_EXPIRY_HOURS && spec_ms_in_timestamp_range(value) ==> r == Ok::<
            Expiry,
            ExpiryError,
        >(Expiry::Timestamp(value)),
        value > MAX_EXPIRY_HOURS && !spec_ms_in_timestamp_range(value) ==> r == Err::<
            Expiry,
            ExpiryError,
        >(ExpiryError::InvalidTimestamp),
{
    if value <= MAX_EXPIRY_HOURS {
        Ok(Expiry::Hours(value))
    } else if timestamp_ms_valid(value) {
        Ok(Expiry::Timestamp(value))
    } else {
        Err(ExpiryError::InvalidTimestamp)
    }
}

/// The decimal text an expiry contributes to an outgoing form: the hour
/// count, or the epoch milliseconds, as a plain signed decimal.
pub open spec fn spec_expiry_dec(e: Expiry) -> Seq<char> {
    match e {
        Expiry::Hours(h) => spec_int_dec(h as int),
        Expiry::Timestamp(ms) => spec_int_dec(ms as int),
    }
}

impl Expiry {
    /// Renders the expiry as the decimal string sent to the service.
    pub fn encode(&self) -> (r: String)
        ensures
            r@ == spec_expiry_dec(*self),
    {
        match self {
            Expiry::Hours(h) => i64_to_dec(*h),
            Expiry::Timestamp(ms) => i64_to_dec(*ms),
        }
    }
}

} // verus!
