//! Keeping a token provider's token fresh: how long to wait before the next refresh, and how
//! failed refreshes are retried.
use vstd::prelude::*;

verus! {

/// The OAuth scope that the refreshed token is asked for.
pub const CLOUD_PLATFORM_SCOPE: &'static str = "https://www.googleapis.com/auth/cloud-platform";

/// The number of failed refreshes after which each further failure is followed by a pause.
pub const QUICK_RETRIES: i32 = 5;

/// The pause after a failed refresh, once the quick retries are used up, in seconds.
pub const FAILURE_PAUSE_SECS: u64 = 300;

/// How long to wait for a token that expires at `expiration` (seconds since the epoch) at
/// `now`: `None` where it has already expired, so that the refresh comes at once.
pub open spec fn expiry_wait(expiration: i64, now: i64) -> Option<u64> {
    if expiration - now < 0 {
        None
    } else {
        Some((expiration - now) as u64)
    }
}

/// How long to wait for a token that expires at `expiration` at `now`.
pub fn wait_for_expiry_secs(expiration: i64, now: i64) -> (r: Option<u64>)
    requires
        i64::MIN <= expiration - now <= i64::MAX,
    ensures
        r == expiry_wait(expiration, now),
{
    let time_to_wait = expiration - now;
    if time_to_wait < 0 {
        None
    } else {
        Some(time_to_wait as u64)
    }
}

/// What came of one refresh.
pub enum RefreshOutcome {
    /// A token was stored; it expires at `expires_at`, and it is `now`.
    Refreshed { expires_at: i64, now: i64 },
    Failed,
}

/// What the refresh loop does next.
#[derive(Debug, PartialEq, Eq, Structural)]
pub enum RefreshAction {
    /// Sleep this many seconds, then refresh.
    Sleep(u64),
    /// Refresh at once.
    Retry,
}

/// The refresh loop: it counts failed refreshes, and never resets the count.
pub struct RefreshLoop {
    pub retries: i32,
}

/// The outcome is one the loop can take without overflow.
pub open spec fn refresh_fits(l: RefreshLoop, o: RefreshOutcome) -> bool {
    match o {
        RefreshOutcome::Refreshed { expires_at, now } => i64::MIN <= expires_at - now <= i64::MAX,
        RefreshOutcome::Failed => l.retries < i32::MAX,
    }
}

impl RefreshLoop {
    /// A loop that has not failed yet.
    pub fn new() -> (r: Self)
        ensures
            r.retries == 0,
    {
        RefreshLoop { retries: 0 }
    }

    /// Takes the outcome of a refresh: after a token, wait until it expires; after a failure,
    /// count it, and pause once more than `QUICK_RETRIES` refreshes have failed.
    pub fn next(&mut self, outcome: RefreshOutcome) -> (a: RefreshAction)
        requires
            refresh_fits(*old(self), outcome),
        ensures
            match outcome {
                RefreshOutcome::Refreshed { expires_at, now } => final(self).retries == old(
                    self,
                ).retries && a == match expiry_wait(expires_at, now) {
                    Some(s) => RefreshAction::Sleep(s),
                    None => RefreshAction::Retry,
                },
                RefreshOutcome::Failed => final(self).retries == old(self).retries + 1 && a == if old(
                    self,
                ).retries + 1 > QUICK_RETRIES {
                    RefreshAction::Sleep(FAILURE_PAUSE_SECS)
                } else {
                    RefreshAction::Retry
                },
            },
    {
        match outcome {
            RefreshOutcome::Refreshed { expires_at, now } => match wait_for_expiry_secs(expires_at, now) {
                Some(s) => RefreshAction::Sleep(s),
                None => RefreshAction::Retry,
            },
            RefreshOutcome::Failed => {
                self.retries = self.retries + 1;
                if self.retries > QUICK_RETRIES {
                    RefreshAction::Sleep(FAILURE_PAUSE_SECS)
                } else {
                    RefreshAction::Retry
                }
            },
        }
    }
}

} // verus!
