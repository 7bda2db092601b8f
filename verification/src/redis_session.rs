//! The decisions of the Redis session store: how long a saved session
//! lives, and the cursored `SCAN` sweep over a namespace.

use crate::config::SessionConfig;
use crate::error::{SessionError, SessionResult};
use crate::session::{fresh_session_has_its_ttl_left, is_fresh_session, Session};
use crate::time::{is_clock_reading, now_utc, offset_of, remaining_secs, Timestamp, Ttl, NANOS_PER_SEC};
use vstd::prelude::*;

verus! {

#[verifier::external_type_specification]
#[verifier::external_body]
pub struct ExRedisClient(redis::Client);

/// Whether `redis::Client::open` accepts the connection URL `url`.
pub uninterp spec fn redis_url_accepted(url: Seq<char>) -> bool;

/// The message (`Display`) of the error with which `redis::Client::open`
/// rejects the connection URL `url`.
pub uninterp spec fn redis_open_error_text(url: Seq<char>) -> Seq<char>;

/// A Redis client for the connection URL `url` (`redis::Client::open`,
/// which parses the URL and opens no connection), or the message of the
/// error with which it rejects `url`. The contract names whether the URL is
/// accepted and the message; the client itself is opaque.
#[verifier::external_body]
fn open_redis_client(url: &str) -> (r: Result<redis::Client, String>)
    ensures
        r is Ok <==> redis_url_accepted(url@),
        r matches Err(m) ==> m@ == redis_open_error_text(url@),
{
    redis::Client::open(url).map_err(|e| e.to_string())
}

/// A client for the Redis server that `config` names; a `Connection` error
/// carrying the client's message when its URL is not accepted. No
/// connection is opened.
pub fn open_client(config: &SessionConfig) -> (r: SessionResult<redis::Client>)
    ensures
        r is Ok <==> redis_url_accepted(config.url@),
        r matches Err(e) ==> e matches SessionError::Connection(m) && m@ == redis_open_error_text(
            config.url@,
        ),
{
    match open_redis_client(config.url.as_str()) {
        Ok(client) => Ok(client),
        Err(message) => Err(SessionError::Connection(message)),
    }
}

/// Number of keys hinted per `SCAN` iteration when sweeping the namespace.
pub const SCAN_COUNT: usize = 500;

/// The expiry, in seconds, with which `session` is written when the clock
/// reads `now`: the whole seconds it has left. A session with none left is
/// already expired and is not written: `Expired` with its ID.
pub fn save_ttl_secs_at(session: &Session, now: Timestamp) -> (r: SessionResult<u64>)
    ensures
        r matches Ok(n) ==> n == remaining_secs(now@, session.expires_at@) && n > 0,
        r is Err <==> remaining_secs(now@, session.expires_at@) == 0,
        r matches Err(e) ==> e matches SessionError::Expired(id) && id@ == session.id@,
{
    let remaining = now.remaining_secs_until(&session.expires_at);
    if remaining == 0 {
        return Err(SessionError::Expired(session.id.clone()));
    }
    Ok(remaining)
}

/// The expiry, in seconds, with which `session` is written now; `Expired`
/// when it has no whole second left.
pub fn save_ttl_secs(session: &Session) -> (r: SessionResult<u64>)
    ensures
        exists|now: Timestamp| {
            &&& is_clock_reading(now)
            &&& r matches Ok(n) ==> n == remaining_secs(now@, session.expires_at@) && n > 0
            &&& r is Err <==> #[trigger] remaining_secs(now@, session.expires_at@) == 0
        },
        r matches Err(e) ==> e matches SessionError::Expired(id) && id@ == session.id@,
{
    save_ttl_secs_at(session, now_utc())
}

/// A session created with a TTL of at least one second is written when it
/// is saved at its creation; one with a shorter TTL is refused as expired
/// rather than silently not written.
pub proof fn fresh_session_is_saved_iff_ttl_reaches_a_second(
    s: Session,
    id: Seq<char>,
    ttl: Ttl,
    now: Timestamp,
)
    requires
        is_fresh_session(s, id, ttl, now),
    ensures
        remaining_secs(now@, s.expires_at@) > 0 <==> offset_of(ttl@) >= NANOS_PER_SEC,
{
    fresh_session_has_its_ttl_left(s, id, ttl, now);
    if offset_of(ttl@) >= NANOS_PER_SEC {
        vstd::arithmetic::div_mod::lemma_div_is_ordered(1_000_000_000, offset_of(ttl@), 1_000_000_000);
    } else {
        vstd::arithmetic::div_mod::lemma_basic_div(offset_of(ttl@), 1_000_000_000);
    }
}

/// The sum of `sizes`.
pub open spec fn sum_sizes(sizes: Seq<nat>) -> nat
    decreases sizes.len(),
{
    if sizes.len() == 0 {
        0
    } else {
        sum_sizes(sizes.drop_last()) + sizes.last()
    }
}

/// Progress of a cursored `SCAN` over a namespace: the cursor to ask for
/// next, whether Redis has signalled the end (cursor 0), and how many keys
/// the batches counted so far held.
pub struct ScanSweep {
    cursor: u64,
    finished: bool,
    total: usize,
    sizes: Ghost<Seq<nat>>,
}

impl ScanSweep {
    #[verifier::type_invariant]
    spec fn counted(self) -> bool {
        self.total == sum_sizes(self.sizes@)
    }

    /// The cursor to pass to the next `SCAN`.
    pub closed spec fn next_cursor(self) -> u64 {
        self.cursor
    }

    /// Whether Redis has returned cursor 0, ending the sweep.
    pub closed spec fn done(self) -> bool {
        self.finished
    }

    /// The sizes of the batches counted so far, in order.
    pub closed spec fn batch_sizes(self) -> Seq<nat> {
        self.sizes@
    }

    /// A sweep that starts at cursor 0 and has counted nothing.
    pub fn new() -> (r: ScanSweep)
        ensures
            r.next_cursor() == 0,
            !r.done(),
            r.batch_sizes() == Seq::<nat>::empty(),
    {
        ScanSweep { cursor: 0, finished: false, total: 0, sizes: Ghost(Seq::empty()) }
    }

    /// The cursor to pass to the next `SCAN`.
    pub fn cursor(&self) -> (r: u64)
        ensures
            r == self.next_cursor(),
    {
        self.cursor
    }

    /// Whether the sweep has ended.
    pub fn is_finished(&self) -> (r: bool)
        ensures
            r == self.done(),
    {
        self.finished
    }

    /// The number of keys in the batches counted so far.
    pub fn total(&self) -> (r: usize)
        ensures
            r == sum_sizes(self.batch_sizes()),
    {
        proof {
            use_type_invariant(self);
        }
        self.total
    }

    /// Move on after a batch that `SCAN` answered with `next_cursor`,
    /// without counting its keys.
    pub fn advance(&mut self, next_cursor: u64)
        ensures
            final(self).next_cursor() == next_cursor,
            final(self).done() == (next_cursor == 0),
            final(self).batch_sizes() == old(self).batch_sizes(),
    {
        proof {
            use_type_invariant(&*self);
        }
        self.cursor = next_cursor;
        self.finished = next_cursor == 0;
    }

    /// Count a batch of `keys_in_batch` keys that `SCAN` answered with
    /// `next_cursor`, and move on.
    pub fn count_batch(&mut self, next_cursor: u64, keys_in_batch: usize)
        requires
            sum_sizes(old(self).batch_sizes()) + keys_in_batch <= usize::MAX,
        ensures
            final(self).next_cursor() == next_cursor,
            final(self).done() == (next_cursor == 0),
            final(self).batch_sizes() == old(self).batch_sizes().push(keys_in_batch as nat),
    {
        proof {
            use_type_invariant(&*self);
        }
        let ghost sizes = self.sizes@.push(keys_in_batch as nat);
        proof {
            assert(sizes.drop_last() =~= self.sizes@);
        }
        *self = ScanSweep {
            cursor: next_cursor,
            finished: next_cursor == 0,
            total: self.total + keys_in_batch,
            sizes: Ghost(sizes),
        };
    }

    /// Whether a batch of `keys_in_batch` keys has anything to unlink.
    pub fn has_keys(keys_in_batch: usize) -> (r: bool)
        ensures
            r == (keys_in_batch > 0),
    {
        keys_in_batch > 0
    }
}

} // verus!
