use vstd::prelude::*;

verus! {

/// A point in time as chrono's `DateTime<Utc>` gives it: whole seconds since
/// the Unix epoch and the nanoseconds past that second.
#[derive(Debug, Clone, Copy, PartialEq, Eq, Structural)]
pub struct Timestamp {
    pub secs: i64,
    pub nanos: u32,
}

/// `chrono::Utc::now`, read out as seconds and nanoseconds
/// (`timestamp`, `timestamp_subsec_nanos`). Nothing is claimed of the value,
/// which depends on the clock; chrono panics when the clock reads a time
/// before the Unix epoch.
#[verifier::external_body]
pub(crate) fn now() -> (r: Timestamp) {
    let t = chrono::Utc::now();
    Timestamp { secs: t.timestamp(), nanos: t.timestamp_subsec_nanos() }
}

} // verus!
