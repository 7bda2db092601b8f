//! Instants and time spans as plain integers.
//!
//! A [`Timestamp`] is an instant in UTC with nanosecond precision, limited to
//! the range that a `chrono::DateTime<Utc>` can hold; a [`Ttl`] is a
//! non-negative span with nanosecond precision, as a `std::time::Duration`.

use vstd::prelude::*;

verus! {

/// Nanoseconds in one second.
pub const NANOS_PER_SEC: u32 = 1_000_000_000;

/// Unix time, in whole seconds, of the earliest representable instant
/// (`-262143-01-01T00:00:00Z`).
pub const MIN_TIMESTAMP_SECS: i64 = -8_334_601_315_200;

/// Unix time, in whole seconds, of the latest representable instant
/// (`+262142-12-31T23:59:59.999999999Z`).
pub const MAX_TIMESTAMP_SECS: i64 = 8_210_266_876_799;

/// The earliest representable instant, in nanoseconds since the Unix epoch.
pub open spec fn min_instant() -> int {
    MIN_TIMESTAMP_SECS * NANOS_PER_SEC
}

/// The latest representable instant, in nanoseconds since the Unix epoch.
pub open spec fn max_instant() -> int {
    MAX_TIMESTAMP_SECS * NANOS_PER_SEC + (NANOS_PER_SEC - 1)
}

/// The longest span that can be added to an instant: `i64::MAX`
/// milliseconds, in nanoseconds.
pub open spec fn max_offset() -> int {
    9_223_372_036_854_775_807_000_000
}

/// Whole seconds from `from` to `to` (both in nanoseconds), rounded toward
/// zero.
pub open spec fn whole_seconds_between(from: int, to: int) -> int {
    let d = to - from;
    if d >= 0 {
        d / (NANOS_PER_SEC as int)
    } else {
        -((-d) / (NANOS_PER_SEC as int))
    }
}

/// Whole seconds left from `now` until `expires` (both in nanoseconds),
/// rounded toward zero, and zero when `expires` is not later.
pub open spec fn remaining_secs(now: int, expires: int) -> int {
    let w = whole_seconds_between(now, expires);
    if w > 0 {
        w
    } else {
        0
    }
}

/// The offset that a span of `ttl` nanoseconds adds to an instant: the span
/// itself when it is at most [`max_offset`], and zero otherwise.
pub open spec fn offset_of(ttl: nat) -> int {
    if ttl <= max_offset() {
        ttl as int
    } else {
        0
    }
}

/// An instant in UTC, with nanosecond precision.
#[derive(Clone, Copy, Debug, PartialEq, Eq)]
pub struct Timestamp {
    secs: i64,
    nanos: u32,
}

impl Timestamp {
    #[verifier::type_invariant]
    spec fn in_range(self) -> bool {
        &&& self.nanos < NANOS_PER_SEC
        &&& MIN_TIMESTAMP_SECS <= self.secs <= MAX_TIMESTAMP_SECS
    }

    /// Nanoseconds since the Unix epoch.
    pub closed spec fn instant(self) -> int {
        self.secs * NANOS_PER_SEC + self.nanos
    }

    /// The instant `secs` seconds and `nanos` nanoseconds after the Unix
    /// epoch, or `None` when `nanos` is not below one second or the instant
    /// lies outside the representable range.
    pub fn from_parts(secs: i64, nanos: u32) -> (r: Option<Timestamp>)
        ensures
            r is Some <==> (nanos < NANOS_PER_SEC && MIN_TIMESTAMP_SECS <= secs
                <= MAX_TIMESTAMP_SECS),
            r matches Some(t) ==> t@ == secs * NANOS_PER_SEC + nanos,
            r matches Some(t) ==> min_instant() <= t@ <= max_instant(),
    {
        if nanos < NANOS_PER_SEC && MIN_TIMESTAMP_SECS <= secs && secs <= MAX_TIMESTAMP_SECS {
            let t = Timestamp { secs, nanos };
            proof {
                lemma_instant_bounds(secs as int, nanos as int);
            }
            Some(t)
        } else {
            None
        }
    }

    /// Whole seconds since the Unix epoch, rounded toward negative infinity.
    pub fn secs(&self) -> (r: i64)
        ensures
            r == self@ / (NANOS_PER_SEC as int),
    {
        proof {
            use_type_invariant(self);
            lemma_split(self.secs as int, self.nanos as int);
        }
        self.secs
    }

    /// Nanoseconds past the last whole second.
    pub fn subsec_nanos(&self) -> (r: u32)
        ensures
            r == self@ % (NANOS_PER_SEC as int),
            r < NANOS_PER_SEC,
    {
        proof {
            use_type_invariant(self);
            lemma_split(self.secs as int, self.nanos as int);
        }
        self.nanos
    }

    /// Nanoseconds since the Unix epoch.
    pub fn as_nanos(&self) -> (r: i128)
        ensures
            r == self@,
            min_instant() <= r <= max_instant(),
    {
        proof {
            use_type_invariant(self);
            lemma_instant_bounds(self.secs as int, self.nanos as int);
        }
        self.secs as i128 * 1_000_000_000i128 + self.nanos as i128
    }

    /// The instant `nanos` nanoseconds after the Unix epoch, which must be
    /// representable.
    fn from_nanos(nanos: i128) -> (r: Timestamp)
        requires
            min_instant() <= nanos <= max_instant(),
        ensures
            r@ == nanos,
    {
        let (secs, sub) = if nanos >= 0 {
            (nanos / 1_000_000_000i128, nanos % 1_000_000_000i128)
        } else {
            let m = -nanos;
            let q = m / 1_000_000_000i128;
            let r = m % 1_000_000_000i128;
            if r == 0 {
                (-q, 0i128)
            } else {
                (-q - 1, 1_000_000_000i128 - r)
            }
        };
        proof {
            lemma_euclid(nanos as int, secs as int, sub as int);
            lemma_join(nanos as int, secs as int, sub as int);
        }
        Timestamp { secs: secs as i64, nanos: sub as u32 }
    }

    /// Whether `self` lies strictly after `other`.
    pub fn is_after(&self, other: &Timestamp) -> (r: bool)
        ensures
            r == (self@ > other@),
    {
        self.as_nanos() > other.as_nanos()
    }

    /// `self` moved forward by `ttl`, where a span longer than
    /// [`max_offset`] counts as zero; `None` when the result would lie past
    /// the latest representable instant.
    pub fn checked_add_ttl(&self, ttl: Ttl) -> (r: Option<Timestamp>)
        ensures
            r is Some <==> self@ + offset_of(ttl@) <= max_instant(),
            r matches Some(t) ==> t@ == self@ + offset_of(ttl@),
    {
        let base = self.as_nanos();
        let offset = ttl.offset_nanos();
        if base <= 8_210_266_876_799_999_999_999i128 - offset {
            Some(Timestamp::from_nanos(base + offset))
        } else {
            None
        }
    }

    /// Whole seconds left from `self` until `later`, rounded toward zero,
    /// and zero when `later` is not later.
    pub fn remaining_secs_until(&self, later: &Timestamp) -> (r: u64)
        ensures
            r == remaining_secs(self@, later@),
    {
        let w = self.whole_seconds_until(later);
        if w > 0 {
            w as u64
        } else {
            0
        }
    }

    /// Whole seconds from `self` until `later`, rounded toward zero
    /// (negative when `later` lies before `self`).
    pub fn whole_seconds_until(&self, later: &Timestamp) -> (r: i64)
        ensures
            r == whole_seconds_between(self@, later@),
    {
        let d = later.as_nanos() - self.as_nanos();
        if d >= 0 {
            let q = d / 1_000_000_000i128;
            proof {
                lemma_quotient_fits(d as int);
            }
            q as i64
        } else {
            let q = (-d) / 1_000_000_000i128;
            proof {
                lemma_quotient_fits(-d);
            }
            -(q as i64)
        }
    }
}

/// Whether `t` can be a reading of the system clock: `chrono::Utc::now`
/// never gives an instant before the Unix epoch.
pub open spec fn is_clock_reading(t: Timestamp) -> bool {
    0 <= t@ <= max_instant()
}

/// The current time, read from the system clock by `chrono::Utc::now`.
///
/// The contract claims only that the instant lies at or after the Unix
/// epoch and in the representable range, with the sub-second part below one
/// second: `chrono` builds it from `SystemTime::now().duration_since(UNIX_EPOCH)`,
/// which it `expect`s to succeed, and `DateTime::from_timestamp`, which it
/// `unwrap`s. Which instant comes back is left unsaid.
#[verifier::external_body]
pub(crate) fn now_utc() -> (t: Timestamp)
    ensures
        is_clock_reading(t),
{
    let now = chrono::Utc::now();
    Timestamp { secs: now.timestamp(), nanos: now.timestamp_subsec_nanos() }
}

/// The text that `chrono`'s `DateTime::<Utc>::to_rfc3339` gives for the
/// instant `instant` (in nanoseconds since the Unix epoch).
pub uninterp spec fn rfc3339_text(instant: int) -> Seq<char>;

impl Timestamp {
    /// The instant written in RFC 3339 form by `chrono`
    /// (`DateTime::from_timestamp` and `DateTime::to_rfc3339`).
    ///
    /// The contract names the text; its form is left to `chrono`.
    #[verifier::external_body]
    pub(crate) fn to_rfc3339(&self) -> (r: String)
        ensures
            r@ == rfc3339_text(self@),
    {
        match chrono::DateTime::from_timestamp(self.secs, self.nanos) {
            Some(t) => t.to_rfc3339(),
            None => String::new(),
        }
    }
}

impl View for Timestamp {
    type V = int;

    closed spec fn view(&self) -> int {
        self.instant()
    }
}

/// Every representable instant splits into whole seconds and a sub-second
/// part that [`Timestamp::from_parts`] accepts and that give the instant
/// back: what [`Timestamp::secs`] and [`Timestamp::subsec_nanos`] return
/// rebuilds the same timestamp.
pub proof fn instant_splits_into_parts(n: int)
    requires
        min_instant() <= n <= max_instant(),
    ensures
        MIN_TIMESTAMP_SECS <= n / (NANOS_PER_SEC as int) <= MAX_TIMESTAMP_SECS,
        0 <= n % (NANOS_PER_SEC as int) < NANOS_PER_SEC,
        (n / (NANOS_PER_SEC as int)) * NANOS_PER_SEC + n % (NANOS_PER_SEC as int) == n,
{
    lemma_join(n, n / 1_000_000_000, n % 1_000_000_000);
}

proof fn lemma_instant_bounds(secs: int, nanos: int)
    requires
        0 <= nanos < NANOS_PER_SEC,
        MIN_TIMESTAMP_SECS <= secs <= MAX_TIMESTAMP_SECS,
    ensures
        min_instant() <= secs * NANOS_PER_SEC + nanos <= max_instant(),
{
    assert(MIN_TIMESTAMP_SECS * 1_000_000_000 <= secs * 1_000_000_000) by (nonlinear_arith)
        requires
            MIN_TIMESTAMP_SECS <= secs,
    ;
    assert(secs * 1_000_000_000 <= MAX_TIMESTAMP_SECS * 1_000_000_000) by (nonlinear_arith)
        requires
            secs <= MAX_TIMESTAMP_SECS,
    ;
}

proof fn lemma_split(secs: int, nanos: int)
    requires
        0 <= nanos < NANOS_PER_SEC,
    ensures
        (secs * NANOS_PER_SEC + nanos) / (NANOS_PER_SEC as int) == secs,
        (secs * NANOS_PER_SEC + nanos) % (NANOS_PER_SEC as int) == nanos,
{
    vstd::arithmetic::div_mod::lemma_fundamental_div_mod_converse(
        secs * 1_000_000_000 + nanos,
        1_000_000_000,
        secs,
        nanos,
    );
}

proof fn lemma_euclid(n: int, secs: int, sub: int)
    requires
        n >= 0 ==> (secs == n / 1_000_000_000 && sub == n % 1_000_000_000),
        n < 0 ==> ((-n) % 1_000_000_000 == 0 ==> (secs == -((-n) / 1_000_000_000) && sub == 0)),
        n < 0 ==> ((-n) % 1_000_000_000 != 0 ==> (secs == -((-n) / 1_000_000_000) - 1
            && sub == 1_000_000_000 - (-n) % 1_000_000_000)),
    ensures
        secs == n / 1_000_000_000,
        sub == n % 1_000_000_000,
{
    if n < 0 {
        let m = -n;
        vstd::arithmetic::div_mod::lemma_fundamental_div_mod(m, 1_000_000_000);
        assert(secs * 1_000_000_000 + sub == n);
        vstd::arithmetic::div_mod::lemma_fundamental_div_mod_converse(n, 1_000_000_000, secs, sub);
    }
}

proof fn lemma_join(n: int, secs: int, sub: int)
    requires
        min_instant() <= n <= max_instant(),
        secs == n / 1_000_000_000,
        sub == n % 1_000_000_000,
    ensures
        secs * NANOS_PER_SEC + sub == n,
        0 <= sub < NANOS_PER_SEC,
        MIN_TIMESTAMP_SECS <= secs <= MAX_TIMESTAMP_SECS,
{
    vstd::arithmetic::div_mod::lemma_fundamental_div_mod(n, 1_000_000_000);
    assert(MIN_TIMESTAMP_SECS <= secs) by (nonlinear_arith)
        requires
            secs * 1_000_000_000 + sub == n,
            0 <= sub < 1_000_000_000,
            MIN_TIMESTAMP_SECS * 1_000_000_000 <= n,
    ;
    assert(secs <= MAX_TIMESTAMP_SECS) by (nonlinear_arith)
        requires
            secs * 1_000_000_000 + sub == n,
            0 <= sub < 1_000_000_000,
            n <= MAX_TIMESTAMP_SECS * 1_000_000_000 + 999_999_999,
    ;
}

proof fn lemma_quotient_fits(d: int)
    requires
        0 <= d <= max_instant() - min_instant(),
    ensures
        d / 1_000_000_000 <= i64::MAX,
{
    vstd::arithmetic::div_mod::lemma_div_is_ordered(d, max_instant() - min_instant(), 1_000_000_000);
}

/// A non-negative span of time with nanosecond precision.
#[derive(Clone, Copy, Debug, PartialEq, Eq)]
pub struct Ttl {
    secs: u64,
    nanos: u32,
}

impl Ttl {
    #[verifier::type_invariant]
    spec fn normalized(self) -> bool {
        self.nanos < NANOS_PER_SEC
    }

    /// Length in nanoseconds.
    pub closed spec fn length(self) -> nat {
        (self.secs * NANOS_PER_SEC + self.nanos) as nat
    }

    /// A span of `secs` seconds and `nanos` nanoseconds.
    pub fn new(secs: u64, nanos: u32) -> (r: Ttl)
        requires
            nanos < NANOS_PER_SEC,
        ensures
            r@ == secs * NANOS_PER_SEC + nanos,
    {
        Ttl { secs, nanos }
    }

    /// A span of `secs` whole seconds.
    pub fn from_secs(secs: u64) -> (r: Ttl)
        ensures
            r@ == secs * NANOS_PER_SEC,
    {
        Ttl { secs, nanos: 0 }
    }

    /// Whole seconds in the span.
    pub fn as_secs(&self) -> (r: u64)
        ensures
            r == self@ / (NANOS_PER_SEC as nat),
    {
        proof {
            use_type_invariant(self);
            lemma_split(self.secs as int, self.nanos as int);
        }
        self.secs
    }

    /// Nanoseconds past the last whole second of the span.
    pub fn subsec_nanos(&self) -> (r: u32)
        ensures
            r == self@ % (NANOS_PER_SEC as nat),
            r < NANOS_PER_SEC,
    {
        proof {
            use_type_invariant(self);
            lemma_split(self.secs as int, self.nanos as int);
        }
        self.nanos
    }

    /// Length in nanoseconds.
    pub fn as_nanos(&self) -> (r: u128)
        ensures
            r == self@,
    {
        proof {
            use_type_invariant(self);
            assert(self.secs * 1_000_000_000 <= u64::MAX * 1_000_000_000) by (nonlinear_arith)
                requires
                    self.secs <= u64::MAX,
            ;
        }
        self.secs as u128 * 1_000_000_000u128 + self.nanos as u128
    }

    /// Whether `self` is strictly longer than `other`.
    pub fn is_longer_than(&self, other: &Ttl) -> (r: bool)
        ensures
            r == (self@ > other@),
    {
        self.as_nanos() > other.as_nanos()
    }

    /// The offset this span adds to an instant, in nanoseconds.
    fn offset_nanos(&self) -> (r: i128)
        ensures
            r == offset_of(self@),
            0 <= r <= max_offset(),
    {
        let n = self.as_nanos();
        if n <= 9_223_372_036_854_775_807_000_000u128 {
            n as i128
        } else {
            0
        }
    }
}

impl View for Ttl {
    type V = nat;

    closed spec fn view(&self) -> nat {
        self.length()
    }
}

} // verus!
