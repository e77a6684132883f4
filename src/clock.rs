use vstd::prelude::*;

verus! {

/// The current wall-clock instant in milliseconds since the Unix epoch;
/// negative for a system clock set before the epoch.
///
/// Relies on chrono's `From<SystemTime> for DateTime<Utc>`, read through
/// `DateTime::timestamp_millis`. Unlike `Utc::now`, that conversion accepts
/// instants before the epoch; it fails only outside chrono's range of about
/// 262,000 years either side of year 0. Nothing is known of the value.
#[verifier::external_body]
pub(crate) fn now_millis() -> (r: i64) {
    chrono::DateTime::<chrono::Utc>::from(std::time::SystemTime::now()).timestamp_millis()
}

} // verus!
