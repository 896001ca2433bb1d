//! The two host facilities the engine's logic draws on: fresh random
//! identifiers and the wall clock. Each is a thin trusted wrapper around
//! one call into an outside crate; everything that depends on the returned
//! value is verified for every value the contract admits.

use vstd::prelude::*;

verus! {

/// Relies on uuid::Uuid::new_v4 (returned as its 128-bit big-endian
/// value): a random identifier whose version nibble is 4 and whose variant
/// bits are the two-bit pattern 2, exactly the bits new_v4 masks in.
/// Nothing else can be promised of a random value.
#[verifier::external_body]
pub fn fresh_uuid() -> (r: u128)
    ensures
        (r >> 76) & 0xf == 4,
        (r >> 62) & 0x3 == 2,
{
    uuid::Uuid::new_v4().as_u128()
}

/// Relies on chrono::Utc::now and DateTime::timestamp_nanos_opt: the
/// current wall-clock instant as nanoseconds since the epoch, or None once
/// the instant no longer fits an i64 (from the year 2262 on). The clock is
/// outside the engine, so no ensures can pin the value.
#[verifier::external_body]
pub fn now_timestamp_nanos() -> (r: Option<i64>) {
    chrono::Utc::now().timestamp_nanos_opt()
}

/// Relies on chrono::Utc::now and DateTime::format with the fixed pattern
/// "%Y%m%d_%H%M%S": the current instant rendered compactly for a directory
/// name. The clock is outside the engine, so no ensures can pin the value.
#[verifier::external_body]
pub fn now_compact_timestamp() -> (r: String) {
    chrono::Utc::now().format("%Y%m%d_%H%M%S").to_string()
}

} // verus!
