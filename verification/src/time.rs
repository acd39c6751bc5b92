//! Points in time and lengths of time, counted in whole integers.

use vstd::prelude::*;

verus! {

/// Nanoseconds in one second.
pub const NANOS_PER_SEC: u32 = 1_000_000_000;

/// Seconds in one day.
pub const SECS_PER_DAY: i64 = 86_400;

/// The longest `Lifetime`, in seconds, forwards or backwards.
pub const MAX_LIFETIME_SECS: i64 = 9_223_372_036_854_775;

/// The clock reads fewer seconds than this.
pub const CLOCK_LIMIT_SECS: i64 = 185_480_451_504_000;

/// The whole seconds in a span of `nanos` nanoseconds, rounded towards zero.
pub open spec fn whole_seconds(nanos: int) -> int {
    if nanos >= 0 {
        nanos / 1_000_000_000
    } else {
        -((-nanos) / 1_000_000_000)
    }
}

/// Whether a timestamp can hold the point `nanos` nanoseconds after the
/// start of 1970: its whole seconds fit in 64 bits.
pub open spec fn in_range(nanos: int) -> bool {
    i64::MIN * 1_000_000_000 <= nanos < (i64::MAX + 1) * 1_000_000_000
}

/// A length of time in whole seconds, negative for a span into the past.
#[derive(Clone, Copy, Debug, PartialEq, Eq, Structural)]
pub struct Lifetime {
    secs: i64,
}

impl View for Lifetime {
    type V = int;

    /// The seconds of the span.
    closed spec fn view(&self) -> int {
        self.secs as int
    }
}

impl Lifetime {
    #[verifier::type_invariant]
    pub closed spec fn wf(self) -> bool {
        -MAX_LIFETIME_SECS <= self.secs <= MAX_LIFETIME_SECS
    }

    /// A valid span stays within the limit.
    pub proof fn lemma_bounds(self)
        requires
            self.wf(),
        ensures
            -MAX_LIFETIME_SECS <= self@ <= MAX_LIFETIME_SECS,
    {
    }

    /// A span of `seconds` seconds, if that is within the limit.
    pub fn seconds(seconds: i64) -> (r: Option<Lifetime>)
        ensures
            r is Some <==> -MAX_LIFETIME_SECS <= seconds <= MAX_LIFETIME_SECS,
            r is Some ==> r->0@ == seconds && r->0.wf(),
    {
        if -MAX_LIFETIME_SECS <= seconds && seconds <= MAX_LIFETIME_SECS {
            Some(Lifetime { secs: seconds })
        } else {
            None
        }
    }

    /// A span of `days` days, if that is within the limit.
    pub fn days(days: i64) -> (r: Option<Lifetime>)
        ensures
            r is Some <==> -MAX_LIFETIME_SECS <= days * SECS_PER_DAY <= MAX_LIFETIME_SECS,
            r is Some ==> r->0@ == days * SECS_PER_DAY && r->0.wf(),
    {
        let limit: i64 = MAX_LIFETIME_SECS / SECS_PER_DAY;
        if -limit <= days && days <= limit {
            Lifetime::seconds(days * SECS_PER_DAY)
        } else {
            None
        }
    }

    /// The seconds of the span.
    pub fn num_seconds(&self) -> (r: i64)
        ensures
            r == self@,
    {
        self.secs
    }
}

/// A point in time: nanoseconds since the start of 1970, held as whole
/// seconds and the nanoseconds past them.
#[derive(Clone, Copy, Debug, PartialEq, Eq, Structural)]
pub struct Timestamp {
    secs: i64,
    nanos: u32,
}

impl View for Timestamp {
    type V = int;

    /// Nanoseconds since the start of 1970.
    closed spec fn view(&self) -> int {
        self.secs * 1_000_000_000 + self.nanos
    }
}

impl Timestamp {
    #[verifier::type_invariant]
    pub closed spec fn wf(self) -> bool {
        self.nanos < NANOS_PER_SEC
    }

    /// The point `nanos` nanoseconds after second `secs`, if `nanos` is
    /// less than a second.
    pub fn new(secs: i64, nanos: u32) -> (r: Option<Timestamp>)
        ensures
            r is Some <==> nanos < NANOS_PER_SEC,
            r is Some ==> r->0@ == secs * 1_000_000_000 + nanos && r->0.wf(),
    {
        if nanos < NANOS_PER_SEC {
            Some(Timestamp { secs, nanos })
        } else {
            None
        }
    }

    /// The point `nanos` nanoseconds after second `secs`, where `nanos`
    /// beyond the last nanosecond of a second count as that nanosecond.
    pub fn clamped(secs: i64, nanos: u32) -> (r: Timestamp)
        ensures
            r@ == secs * 1_000_000_000 + if nanos < NANOS_PER_SEC {
                nanos as int
            } else {
                NANOS_PER_SEC - 1
            },
            r.wf(),
    {
        if nanos < NANOS_PER_SEC {
            Timestamp { secs, nanos }
        } else {
            Timestamp { secs, nanos: NANOS_PER_SEC - 1 }
        }
    }

    /// The start of second `secs`.
    pub fn from_secs(secs: i64) -> (r: Timestamp)
        ensures
            r@ == secs * 1_000_000_000,
            r.wf(),
    {
        Timestamp { secs, nanos: 0 }
    }

    /// The start of 1970.
    pub fn epoch() -> (r: Timestamp)
        ensures
            r@ == 0,
            r.wf(),
    {
        Timestamp { secs: 0, nanos: 0 }
    }

    /// The whole seconds since the start of 1970, rounded down.
    pub fn secs(&self) -> (r: i64)
        ensures
            r == self@ / 1_000_000_000,
    {
        proof {
            use_type_invariant(self);
        }
        self.secs
    }

    /// The nanoseconds past the last whole second.
    pub fn subsec_nanos(&self) -> (r: u32)
        ensures
            r == self@ % 1_000_000_000,
    {
        proof {
            use_type_invariant(self);
        }
        self.nanos
    }

    /// Whether this point lies strictly before `other`.
    pub fn is_before(&self, other: &Timestamp) -> (r: bool)
        ensures
            r == (self@ < other@),
    {
        proof {
            use_type_invariant(self);
            use_type_invariant(other);
        }
        self.secs < other.secs || (self.secs == other.secs && self.nanos < other.nanos)
    }

    /// This point moved by `lifetime`, unless the seconds leave 64 bits.
    pub fn checked_plus(&self, lifetime: Lifetime) -> (r: Option<Timestamp>)
        ensures
            r is Some <==> in_range(self@ + lifetime@ * 1_000_000_000),
            r is Some ==> r->0@ == self@ + lifetime@ * 1_000_000_000 && r->0.wf(),
    {
        proof {
            use_type_invariant(self);
        }
        match self.secs.checked_add(lifetime.num_seconds()) {
            Some(secs) => Some(Timestamp { secs, nanos: self.nanos }),
            None => None,
        }
    }

    /// The whole seconds from `earlier` to this point, rounded towards
    /// zero, where they are more than none.
    pub fn seconds_after(&self, earlier: &Timestamp) -> (r: Option<u64>)
        ensures
            r is Some <==> whole_seconds(self@ - earlier@) > 0,
            r is Some ==> r->0 == whole_seconds(self@ - earlier@),
    {
        proof {
            use_type_invariant(self);
            use_type_invariant(earlier);
        }
        let secs: i128 = self.secs as i128 - earlier.secs as i128;
        let nanos: i128 = self.nanos as i128 - earlier.nanos as i128;
        let span: i128 = secs * 1_000_000_000 + nanos;
        if span >= 1_000_000_000 {
            let whole: i128 = span / 1_000_000_000;
            Some(whole as u64)
        } else {
            None
        }
    }

    /// The time that the system clock shows.
    pub fn now() -> (r: Timestamp)
        ensures
            0 <= r@ < CLOCK_LIMIT_SECS * 1_000_000_000,
            r.wf(),
    {
        let (secs, nanos) = clock_reading();
        Timestamp { secs, nanos }
    }
}

/// Reads the system clock with `chrono::Utc::now` and hands back its
/// `timestamp` and `timestamp_subsec_nanos`. The clock counts from 1970
/// on, in seconds within chrono's range of dates, and the nanoseconds of
/// a system time are less than a second. Two readings may differ.
#[verifier::external_body]
fn clock_reading() -> (r: (i64, u32))
    ensures
        0 <= r.0 < CLOCK_LIMIT_SECS,
        r.1 < NANOS_PER_SEC,
{
    let now = chrono::Utc::now();
    (now.timestamp(), now.timestamp_subsec_nanos())
}

/// The time of an optional timestamp.
pub open spec fn time_of(t: Option<Timestamp>) -> Option<int> {
    match t {
        Some(t) => Some(t@),
        None => None,
    }
}

} // verus!
