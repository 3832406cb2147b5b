//! The instant a block is created at.
//!
//! Sealing captures the clock once, before the nonce search starts, and the
//! captured instant is part of the hashed content. The sealer itself only
//! ever lays the instant down as bytes, so it holds the time as two plain
//! integers; reading the clock is the one outside call.

use vstd::prelude::*;

verus! {

/// A UTC instant: whole seconds since the Unix epoch, possibly negative,
/// and the nanoseconds within that second.
#[derive(Clone, Copy, PartialEq, Eq, Structural)]
pub struct Timestamp {
    pub secs: i64,
    pub nanos: u32,
}

/// Relies on `chrono::Utc::now`, `DateTime::timestamp` and
/// `DateTime::timestamp_subsec_nanos`: the current UTC time, as seconds since
/// the Unix epoch and nanoseconds within the second. Nothing is promised of
/// which instant comes back; the nanosecond part stays below two billion
/// (values above a billion encode a leap second).
#[verifier::external_body]
pub(crate) fn utc_now() -> (t: Timestamp)
    ensures
        t.nanos < 2_000_000_000,
{
    let now = chrono::Utc::now();
    Timestamp { secs: now.timestamp(), nanos: now.timestamp_subsec_nanos() }
}

} // verus!
