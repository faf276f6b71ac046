//! The single ephemeral notice.
use vstd::prelude::*;

verus! {

/// How long a notice stays, in milliseconds.
pub const NOTIFICATION_TTL_MS: u64 = 10000;

/// A message and the instant (in milliseconds of the session clock) at which it expires.
#[derive(Debug, PartialEq, Eq)]
pub struct Notification {
    pub message: String,
    pub expires_at: u64,
}

/// The expiry instant of a notice shown at `now`.
pub open spec fn expiry(now: u64) -> u64 {
    if now as int + NOTIFICATION_TTL_MS as int <= u64::MAX as int {
        (now + NOTIFICATION_TTL_MS) as u64
    } else {
        u64::MAX
    }
}

impl Notification {
    /// A notice shown at `now`.
    pub fn new(message: String, now: u64) -> (r: Notification)
        ensures
            r.message == message,
            r.expires_at == expiry(now),
    {
        let expires_at = if now <= u64::MAX - NOTIFICATION_TTL_MS {
            now + NOTIFICATION_TTL_MS
        } else {
            u64::MAX
        };
        Notification { message, expires_at }
    }

    /// Whether the notice has expired at `now`.
    pub fn is_expired(&self, now: u64) -> (r: bool)
        ensures
            r == (now >= self.expires_at),
    {
        now >= self.expires_at
    }
}

} // verus!
