//! How long an unlocked session stays open.

use vstd::prelude::*;

verus! {

/// Minutes that a session stays open where none are configured.
pub const DEFAULT_SESSION_TIMEOUT: i64 = 15;

/// Name of the entry that holds the time of the last login.
pub const SESSION_STORAGE: &'static str = "session";

/// Name of the entry that holds the configured timeout.
pub const SESSION_TIMEOUT_KEY: &'static str = "session_timeout";

/// The timeout in force, in minutes.
pub open spec fn timeout_in_force(session_timeout: Option<i64>) -> int {
    match session_timeout {
        Some(minutes) => minutes as int,
        None => DEFAULT_SESSION_TIMEOUT as int,
    }
}

/// Whether a session is open at `now`: there was a login, and fewer
/// seconds have passed since than the timeout allows.
pub open spec fn session_open(
    last_login: Option<i64>,
    session_timeout: Option<i64>,
    now: i64,
) -> bool {
    match last_login {
        Some(at) => now - at < timeout_in_force(session_timeout) * 60,
        None => false,
    }
}

/// Whether a session is open at `now`. Times are seconds since the Unix
/// epoch; the timeout is in minutes.
pub fn is_session_active(last_login: Option<i64>, session_timeout: Option<i64>, now: i64) -> (r:
    bool)
    ensures
        r == session_open(last_login, session_timeout, now),
{
    match last_login {
        Some(at) => {
            let minutes: i64 = match session_timeout {
                Some(minutes) => minutes,
                None => DEFAULT_SESSION_TIMEOUT,
            };
            let elapsed: i128 = now as i128 - at as i128;
            let allowed: i128 = minutes as i128 * 60;
            elapsed < allowed
        },
        None => false,
    }
}

} // verus!
