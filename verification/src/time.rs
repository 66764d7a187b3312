use vstd::prelude::*;

verus! {

/// A point in time, in nanoseconds since the Unix epoch.
///
/// This layer never computes with timestamps; it only carries them from the
/// caller (or from the clock, when a span is ended without one) into the
/// recorded data.
#[derive(Debug, Clone, Copy, PartialEq, Eq, Structural)]
pub struct Timestamp {
    /// Nanoseconds since the Unix epoch.
    pub nanos: u64,
}

impl Timestamp {
    /// A timestamp with the given count of nanoseconds since the epoch.
    pub fn from_nanos(nanos: u64) -> (r: Timestamp)
        ensures
            r == (Timestamp { nanos }),
    {
        Timestamp { nanos }
    }

    /// The current time.
    ///
    /// Relies on `std::time::SystemTime::now` for the clock reading; the
    /// result depends on the environment, so nothing is promised of it.
    /// A clock before the epoch is reported as the epoch itself.
    #[verifier::external_body]
    pub fn now() -> (r: Timestamp)
    {
        let nanos = std::time::SystemTime::now()
            .duration_since(std::time::UNIX_EPOCH)
            .map(|d| d.as_nanos() as u64)
            .unwrap_or(0);
        Timestamp { nanos }
    }
}

} // verus!
