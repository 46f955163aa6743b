use crate::constants::TRADIER_SESSION_TIMEOUT;
use vstd::prelude::*;

verus! {

/// A moment on the UTC time line: whole seconds since the Unix epoch, not
/// counting leap seconds, and the nanoseconds past that second.
#[derive(Debug, Clone, Copy, PartialEq, Eq, Structural)]
pub struct Timestamp {
    pub secs: i64,
    pub nanos: u32,
}

/// Nanoseconds in a second.
pub const NANOS_PER_SECOND: i128 = 1_000_000_000;

/// The session timeout in nanoseconds.
pub open spec fn timeout_nanos() -> int {
    TRADIER_SESSION_TIMEOUT * 60 * NANOS_PER_SECOND
}

/// Whether a session created at `created` has outlived the timeout at `now`:
/// more time has passed than the timeout allows.
pub open spec fn expired(created: Timestamp, now: Timestamp) -> bool {
    now.since_epoch() - created.since_epoch() > timeout_nanos()
}

impl Timestamp {
    /// Nanoseconds from the Unix epoch to this moment.
    pub open spec fn since_epoch(self) -> int {
        self.secs * NANOS_PER_SECOND + self.nanos
    }

    /// Whether this moment is no later than `other`.
    pub open spec fn not_after(self, other: Timestamp) -> bool {
        self.since_epoch() <= other.since_epoch()
    }

    /// Whether more than the session timeout lies between `created` and this
    /// moment.
    pub fn is_past_timeout_since(&self, created: &Timestamp) -> (past: bool)
        ensures
            past == expired(*created, *self),
    {
        let whole: i128 = self.secs as i128 - created.secs as i128;
        let part: i128 = self.nanos as i128 - created.nanos as i128;
        let elapsed: i128 = whole * NANOS_PER_SECOND + part;
        let limit: i128 = TRADIER_SESSION_TIMEOUT as i128 * 60 * NANOS_PER_SECOND;
        elapsed > limit
    }
}

/// Reads the system clock with `std::time::SystemTime::now`, turns the reading
/// into a `chrono::DateTime<Utc>` by chrono's conversion from `SystemTime`,
/// and hands out what `timestamp` and `timestamp_subsec_nanos` give for it. A
/// clock that stands before the Unix epoch gives a negative count of seconds.
/// The conversion rests on the reading lying within the years that chrono can
/// hold, some 262,000 on either side of the epoch. Nothing is promised of the
/// reading: the clock may be set back between two calls.
#[verifier::external_body]
pub(crate) fn current_time() -> Timestamp {
    let now = chrono::DateTime::<chrono::Utc>::from(std::time::SystemTime::now());
    Timestamp { secs: now.timestamp(), nanos: now.timestamp_subsec_nanos() }
}

/// A session is not expired at the moment of its creation.
pub proof fn lemma_fresh_is_not_expired(created: Timestamp)
    ensures
        !expired(created, created),
{
}

/// Expiry sets in exactly when more than five minutes have passed.
pub proof fn lemma_expired_iff_timeout_exceeded(created: Timestamp, now: Timestamp)
    ensures
        expired(created, now) <==> now.since_epoch() - created.since_epoch() > 300_000_000_000,
{
}

/// Expiry is monotone in time: a session that is expired at one moment is
/// expired at every later one.
pub proof fn lemma_expiry_is_monotone(created: Timestamp, earlier: Timestamp, later: Timestamp)
    requires
        earlier.not_after(later),
        expired(created, earlier),
    ensures
        expired(created, later),
{
}

} // verus!
