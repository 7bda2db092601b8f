//! The decisions of the Memcached session store.

use crate::error::{SessionError, SessionResult};
use crate::session::Session;
use crate::time::{is_clock_reading, now_utc, remaining_secs, Timestamp};
use vstd::prelude::*;

verus! {

/// The expiration, in seconds, with which `session` is written when the
/// clock reads `now`: the whole seconds it has left, cut to their low 32
/// bits as Memcached takes a 32-bit expiration; `None` when that is zero,
/// and the session is then not written.
pub fn save_expiration_at(session: &Session, now: Timestamp) -> (r: Option<u32>)
    ensures
        r is None <==> remaining_secs(now@, session.expires_at@) % 0x1_0000_0000 == 0,
        r matches Some(n) ==> n == remaining_secs(now@, session.expires_at@) % 0x1_0000_0000,
{
    let remaining = now.remaining_secs_until(&session.expires_at);
    let expiration = #[verifier::truncate] (remaining as u32);
    assert((#[verifier::truncate] (remaining as u32)) == remaining % 0x1_0000_0000) by (bit_vector);
    if expiration > 0 {
        Some(expiration)
    } else {
        None
    }
}

/// A session with fewer than 2^32 whole seconds left is written with
/// exactly those seconds as its expiration, and not written when none are
/// left.
pub proof fn expiration_is_remaining_time_when_it_fits(remaining: int)
    requires
        0 <= remaining < 0x1_0000_0000,
    ensures
        remaining % 0x1_0000_0000 == remaining,
        remaining % 0x1_0000_0000 == 0 <==> remaining == 0,
{
}

/// The expiration, in seconds, with which `session` is written now;
/// `None` when the session is not to be written.
pub fn save_expiration(session: &Session) -> (r: Option<u32>)
    ensures
        exists|now: Timestamp| {
            &&& is_clock_reading(now)
            &&& r is None <==> #[trigger] remaining_secs(now@, session.expires_at@) % 0x1_0000_0000 == 0
            &&& r matches Some(n) ==> n == remaining_secs(now@, session.expires_at@) % 0x1_0000_0000
        },
{
    save_expiration_at(session, now_utc())
}

/// Counting the sessions of a namespace: Memcached cannot list keys by
/// prefix, so this always fails.
pub fn count_sessions() -> (r: SessionResult<usize>)
    ensures
        r matches Err(e) && e matches SessionError::Other(m)
            && m@ == "Memcached does not support counting sessions by prefix"@,
{
    Err(SessionError::Other("Memcached does not support counting sessions by prefix".to_owned()))
}

} // verus!
