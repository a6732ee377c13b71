//! Bi-temporal knowledge modelling: instants, ranges of instants and the
//! validity state of a fact at a given instant.

use vstd::prelude::*;

verus! {

/// The first second chrono can represent: January 1 of year -262143,
/// 00:00:00 UTC, as seconds since the Unix epoch.
pub const MIN_TIMESTAMP_SECS: i64 = -8_334_601_228_800;

/// The last second chrono can represent: December 31 of year 262142,
/// 23:59:59 UTC, as seconds since the Unix epoch.
pub const MAX_TIMESTAMP_SECS: i64 = 8_210_266_876_799;

/// Holds exactly when `chrono::DateTime::<Utc>::from_timestamp(secs, nanos)`
/// yields a date-time: the second lies within chrono's years -262143 to
/// 262142, there are fewer than two billion nanoseconds, and a leap-second
/// nanosecond count (a billion or more) only occurs in a second that ends a
/// minute.
pub open spec fn chrono_timestamp_valid(secs: i64, nanos: u32) -> bool {
    &&& MIN_TIMESTAMP_SECS <= secs <= MAX_TIMESTAMP_SECS
    &&& nanos < 2_000_000_000
    &&& (nanos >= 1_000_000_000 ==> secs % 60 == 59)
}

/// Asks `chrono::DateTime::<Utc>::from_timestamp(secs, nanos)` whether the
/// instant can be represented. chrono's source accepts a day number within
/// the range of `NaiveDate` (years `MIN_YEAR` to `MAX_YEAR`) and a time of
/// day that `NaiveTime::from_num_seconds_from_midnight_opt` accepts; the
/// contract states the resulting condition as `chrono_timestamp_valid`.
#[verifier::external_body]
fn chrono_accepts(secs: i64, nanos: u32) -> (ok: bool)
    ensures
        ok == chrono_timestamp_valid(secs, nanos),
{
    chrono::DateTime::from_timestamp(secs, nanos).is_some()
}

/// An instant in UTC: whole seconds since the Unix epoch (non-leap seconds),
/// plus the nanoseconds since the last whole second (up to two billion, to
/// express a leap second, as chrono does). Instants are ordered by seconds,
/// then by nanoseconds, which is the order of chrono's `DateTime<Utc>`.
#[derive(Clone, Copy, Debug, PartialEq, Eq, Structural)]
pub struct Timestamp {
    secs: i64,
    nanos: u32,
}

impl View for Timestamp {
    type V = (i64, u32);

    closed spec fn view(&self) -> (i64, u32) {
        (self.secs, self.nanos)
    }
}

/// `a` is not later than `b`.
pub open spec fn ts_le(a: (i64, u32), b: (i64, u32)) -> bool {
    a.0 < b.0 || (a.0 == b.0 && a.1 <= b.1)
}

/// `a` is strictly earlier than `b`.
pub open spec fn ts_lt(a: (i64, u32), b: (i64, u32)) -> bool {
    a.0 < b.0 || (a.0 == b.0 && a.1 < b.1)
}

impl Timestamp {
    #[verifier::type_invariant]
    closed spec fn representable(self) -> bool {
        chrono_timestamp_valid(self.secs, self.nanos)
    }

    /// The instant `secs` seconds and `nanos` nanoseconds after the Unix
    /// epoch, or `None` where chrono cannot represent it.
    pub fn new(secs: i64, nanos: u32) -> (r: Option<Timestamp>)
        ensures
            r is Some <==> chrono_timestamp_valid(secs, nanos),
            r matches Some(t) ==> t@ == (secs, nanos),
    {
        if chrono_accepts(secs, nanos) {
            Some(Timestamp { secs, nanos })
        } else {
            None
        }
    }

    /// Seconds since the Unix epoch.
    pub fn secs(&self) -> (r: i64)
        ensures
            r == self@.0,
    {
        self.secs
    }

    /// Nanoseconds since the last whole second.
    pub fn nanos(&self) -> (r: u32)
        ensures
            r == self@.1,
            chrono_timestamp_valid(self@.0, self@.1),
            r < 2_000_000_000,
            r >= 1_000_000_000 ==> self@.0 % 60 == 59,
    {
        proof {
            use_type_invariant(self);
        }
        self.nanos
    }

    /// Whether `self` is not later than `other`.
    pub fn le(&self, other: &Timestamp) -> (r: bool)
        ensures
            r == ts_le(self@, other@),
    {
        self.secs < other.secs || (self.secs == other.secs && self.nanos <= other.nanos)
    }

    /// Whether `self` is strictly earlier than `other`.
    pub fn lt(&self, other: &Timestamp) -> (r: bool)
        ensures
            r == ts_lt(self@, other@),
    {
        self.secs < other.secs || (self.secs == other.secs && self.nanos < other.nanos)
    }
}


/// A signed length of time, as chrono's `TimeDelta` reports it through
/// `num_seconds` and `subsec_nanos`: whole seconds truncated toward zero, and
/// the remaining nanoseconds carrying the same sign.
#[derive(Clone, Copy, Debug, PartialEq, Eq, Structural)]
pub struct TimeSpan {
    pub secs: i64,
    pub nanos: i32,
}

impl TimeSpan {
    /// The length in nanoseconds.
    pub open spec fn total_nanos(self) -> int {
        self.secs * 1_000_000_000 + self.nanos
    }

    /// `self` is the decomposition described on the type of `total` nanoseconds.
    pub open spec fn splits(self, total: int) -> bool {
        &&& self.total_nanos() == total
        &&& -1_000_000_000 < self.nanos < 1_000_000_000
        &&& total >= 0 ==> self.nanos >= 0
        &&& total <= 0 ==> self.nanos <= 0
    }
}

/// The nanoseconds from `start` to `end` as chrono counts them when one
/// `DateTime<Utc>` is subtracted from another: the difference of the
/// timestamps, corrected by one second where a leap second of one operand
/// lies between the two seconds-of-day.
pub open spec fn chrono_span_nanos(start: (i64, u32), end: (i64, u32)) -> int {
    let ds: int = (end.0 as int) % 86_400;
    let ss: int = (start.0 as int) % 86_400;
    let adj: int = if ds > ss && start.1 >= 1_000_000_000 {
        1
    } else if ds < ss && end.1 >= 1_000_000_000 {
        -1
    } else {
        0
    };
    (end.0 - start.0 + adj) * 1_000_000_000 + (end.1 - start.1)
}

/// Subtracts two instants with chrono: both are turned into
/// `DateTime<Utc>` by `DateTime::from_timestamp` (which succeeds, as both are
/// representable), `end - start` gives a `TimeDelta`, and its
/// `num_seconds` and `subsec_nanos` are returned. The contract states the
/// arithmetic of chrono's `NaiveDateTime::signed_duration_since`, leap
/// seconds included, and the decomposition of `num_seconds`/`subsec_nanos`.
#[verifier::external_body]
fn chrono_signed_duration(start: &Timestamp, end: &Timestamp) -> (d: TimeSpan)
    requires
        chrono_timestamp_valid(start@.0, start@.1),
        chrono_timestamp_valid(end@.0, end@.1),
    ensures
        d.splits(chrono_span_nanos(start@, end@)),
{
    let s = chrono::DateTime::from_timestamp(start.secs, start.nanos).unwrap();
    let e = chrono::DateTime::from_timestamp(end.secs, end.nanos).unwrap();
    let delta = e - s;
    TimeSpan { secs: delta.num_seconds(), nanos: delta.subsec_nanos() }
}

/// A reading of the system clock relative to the Unix epoch: a duration of
/// whole seconds and sub-second nanoseconds, at or after the epoch, or
/// before it.
#[derive(Clone, Copy, Debug, PartialEq, Eq, Structural)]
pub enum ClockReading {
    /// The clock reads `secs` seconds and `nanos` nanoseconds after the epoch.
    AtOrAfterEpoch { secs: u64, nanos: u32 },
    /// The clock reads `secs` seconds and `nanos` nanoseconds before the epoch.
    BeforeEpoch { secs: u64, nanos: u32 },
}

/// The signed number of nanoseconds since the epoch that a reading stands for.
pub open spec fn reading_nanos(r: ClockReading) -> int {
    match r {
        ClockReading::AtOrAfterEpoch { secs, nanos } => secs * 1_000_000_000 + nanos,
        ClockReading::BeforeEpoch { secs, nanos } => -(secs * 1_000_000_000 + nanos),
    }
}

/// The instant `n` nanoseconds after the epoch (before it, where `n` is
/// negative), as whole seconds and the nanoseconds, below a billion, since
/// the last whole second.
pub open spec fn instant_at_nanos(n: int) -> (int, int) {
    (n / 1_000_000_000, n % 1_000_000_000)
}

/// The reading's sub-second part is below a second, as std's durations are.
pub open spec fn clock_nanos_below_second(reading: ClockReading) -> bool {
    match reading {
        ClockReading::AtOrAfterEpoch { nanos, .. } => nanos < 1_000_000_000,
        ClockReading::BeforeEpoch { nanos, .. } => nanos < 1_000_000_000,
    }
}

/// The validity state of a fact at the instant a clock reading stands for,
/// or `None` where chrono cannot represent that instant.
pub open spec fn validity_at_reading(
    valid_from: Option<Timestamp>,
    valid_until: Option<Timestamp>,
    reading: ClockReading,
) -> Option<TemporalValidity> {
    let (sec, nano) = instant_at_nanos(reading_nanos(reading));
    if MIN_TIMESTAMP_SECS <= sec <= MAX_TIMESTAMP_SECS {
        Some(validity_at(valid_from, valid_until, (sec as i64, nano as u32)))
    } else {
        None
    }
}

/// A reading becomes the instant chrono gives a `SystemTime`: after the
/// epoch, its seconds and nanoseconds; before it, the negated seconds, moved
/// one second earlier where there are nanoseconds, which then count up from
/// that earlier second.
pub proof fn lemma_reading_instant(reading: ClockReading)
    requires
        clock_nanos_below_second(reading),
    ensures
        reading matches ClockReading::AtOrAfterEpoch { secs, nanos } ==> instant_at_nanos(
            reading_nanos(reading),
        ) == (secs as int, nanos as int),
        reading matches ClockReading::BeforeEpoch { secs, nanos } ==> instant_at_nanos(
            reading_nanos(reading),
        ) == if nanos == 0 {
            (-secs, 0int)
        } else {
            (-secs - 1, 1_000_000_000 - nanos)
        },
{
    match reading {
        ClockReading::AtOrAfterEpoch { secs, nanos } => {
            vstd::arithmetic::div_mod::lemma_fundamental_div_mod_converse(
                reading_nanos(reading),
                1_000_000_000,
                secs as int,
                nanos as int,
            );
        },
        ClockReading::BeforeEpoch { secs, nanos } => {
            if nanos == 0 {
                vstd::arithmetic::div_mod::lemma_fundamental_div_mod_converse(
                    reading_nanos(reading),
                    1_000_000_000,
                    -secs,
                    0,
                );
            } else {
                vstd::arithmetic::div_mod::lemma_fundamental_div_mod_converse(
                    reading_nanos(reading),
                    1_000_000_000,
                    -secs - 1,
                    1_000_000_000 - nanos,
                );
            }
        },
    }
}

/// Reads the system clock with `std::time::SystemTime::now()` and measures
/// it from `UNIX_EPOCH` with `duration_since`: the `Ok` duration is a reading
/// at or after the epoch, the duration of the `Err` one before it. Nothing
/// is promised of the reading, which depends on the clock, beyond what the
/// documentation of `Duration::subsec_nanos` gives: fewer than a billion
/// nanoseconds. Neither call panics.
#[verifier::external_body]
fn read_system_clock() -> (r: ClockReading)
    ensures
        clock_nanos_below_second(r),
{
    match std::time::SystemTime::now().duration_since(std::time::UNIX_EPOCH) {
        Ok(d) => ClockReading::AtOrAfterEpoch { secs: d.as_secs(), nanos: d.subsec_nanos() },
        Err(e) => ClockReading::BeforeEpoch {
            secs: e.duration().as_secs(),
            nanos: e.duration().subsec_nanos(),
        },
    }
}

/// The instant a clock reading stands for, as chrono's
/// `DateTime::<Utc>::from(SystemTime)` computes it; `None` where chrono
/// cannot represent that instant (where chrono's conversion panics).
pub fn timestamp_of_reading(r: ClockReading) -> (t: Option<Timestamp>)
    ensures
        t is Some <==> MIN_TIMESTAMP_SECS <= instant_at_nanos(reading_nanos(r)).0
            <= MAX_TIMESTAMP_SECS,
        t matches Some(x) ==> x@.0 == instant_at_nanos(reading_nanos(r)).0 && x@.1
            == instant_at_nanos(reading_nanos(r)).1,
{
    match r {
        ClockReading::AtOrAfterEpoch { secs, nanos } => {
            let carry: u32 = nanos / 1_000_000_000;
            let rest: u32 = nanos % 1_000_000_000;
            proof {
                vstd::arithmetic::div_mod::lemma_fundamental_div_mod_converse(
                    reading_nanos(r),
                    1_000_000_000,
                    secs + carry,
                    rest as int,
                );
            }
            if secs > 8_210_266_876_799u64 {
                return None;
            }
            let whole: i64 = secs as i64 + carry as i64;
            Timestamp::new(whole, rest)
        },
        ClockReading::BeforeEpoch { secs, nanos } => {
            let carry: u32 = nanos / 1_000_000_000;
            let rest: u32 = nanos % 1_000_000_000;
            if secs > 8_334_601_228_800u64 {
                proof {
                    if rest == 0 {
                        vstd::arithmetic::div_mod::lemma_fundamental_div_mod_converse(
                            reading_nanos(r),
                            1_000_000_000,
                            -(secs + carry),
                            0,
                        );
                    } else {
                        vstd::arithmetic::div_mod::lemma_fundamental_div_mod_converse(
                            reading_nanos(r),
                            1_000_000_000,
                            -(secs + carry) - 1,
                            1_000_000_000 - rest,
                        );
                    }
                }
                return None;
            }
            let magnitude: i64 = secs as i64 + carry as i64;
            if rest == 0 {
                proof {
                    vstd::arithmetic::div_mod::lemma_fundamental_div_mod_converse(
                        reading_nanos(r),
                        1_000_000_000,
                        -(secs + carry),
                        0,
                    );
                }
                Timestamp::new(-magnitude, 0)
            } else {
                proof {
                    vstd::arithmetic::div_mod::lemma_fundamental_div_mod_converse(
                        reading_nanos(r),
                        1_000_000_000,
                        -(secs + carry) - 1,
                        1_000_000_000 - rest,
                    );
                }
                Timestamp::new(-magnitude - 1, 1_000_000_000 - rest)
            }
        },
    }
}

/// A time range whose bounds, where present, are both inclusive.
#[derive(Clone, Copy, Debug, PartialEq, Eq, Structural)]
pub struct TemporalRange {
    /// Start of the range (inclusive).
    pub start: Option<Timestamp>,
    /// End of the range (inclusive).
    pub end: Option<Timestamp>,
}

/// `bound` is absent, or not later than `t`.
pub open spec fn after_start(bound: Option<Timestamp>, t: (i64, u32)) -> bool {
    match bound {
        Some(s) => ts_le(s@, t),
        None => true,
    }
}

/// `bound` is absent, or not earlier than `t`.
pub open spec fn before_end(bound: Option<Timestamp>, t: (i64, u32)) -> bool {
    match bound {
        Some(e) => ts_le(t, e@),
        None => true,
    }
}

/// An end bound that lies strictly before a start bound; absent bounds never do.
pub open spec fn ends_before(end: Option<Timestamp>, start: Option<Timestamp>) -> bool {
    match (end, start) {
        (Some(e), Some(s)) => ts_lt(e@, s@),
        _ => false,
    }
}

impl TemporalRange {
    /// The instant `t` lies within the range.
    pub open spec fn spec_contains(self, t: (i64, u32)) -> bool {
        after_start(self.start, t) && before_end(self.end, t)
    }

    /// Neither range ends before the other starts.
    pub open spec fn spec_overlaps(self, other: TemporalRange) -> bool {
        !ends_before(self.end, other.start) && !ends_before(other.end, self.start)
    }

    /// Where both bounds are present, the start is not later than the end.
    pub open spec fn spec_ordered(self) -> bool {
        match (self.start, self.end) {
            (Some(s), Some(e)) => ts_le(s@, e@),
            _ => true,
        }
    }

    /// A range with both bounds.
    pub fn between(start: Timestamp, end: Timestamp) -> (r: TemporalRange)
        ensures
            r.start == Some(start),
            r.end == Some(end),
    {
        TemporalRange { start: Some(start), end: Some(end) }
    }

    /// A range that starts at `start` and has no end.
    pub fn from(start: Timestamp) -> (r: TemporalRange)
        ensures
            r.start == Some(start),
            r.end is None,
    {
        TemporalRange { start: Some(start), end: None }
    }

    /// A range that ends at `end` and has no start.
    pub fn until(end: Timestamp) -> (r: TemporalRange)
        ensures
            r.start is None,
            r.end == Some(end),
    {
        TemporalRange { start: None, end: Some(end) }
    }

    /// The unbounded range: all time.
    pub fn all() -> (r: TemporalRange)
        ensures
            r.start is None,
            r.end is None,
    {
        TemporalRange { start: None, end: None }
    }

    /// Whether `time` falls within the range, bounds included.
    pub fn contains(&self, time: Timestamp) -> (r: bool)
        ensures
            r == self.spec_contains(time@),
    {
        let after_start = match &self.start {
            Some(s) => s.le(&time),
            None => true,
        };
        let before_end = match &self.end {
            Some(e) => time.le(e),
            None => true,
        };
        after_start && before_end
    }

    /// Whether the two ranges overlap: they do unless one ends before the
    /// other starts.
    pub fn overlaps(&self, other: &TemporalRange) -> (r: bool)
        ensures
            r == self.spec_overlaps(*other),
    {
        let this_ends_before = match (&self.end, &other.start) {
            (Some(e), Some(s)) => e.lt(s),
            _ => false,
        };
        let other_ends_before = match (&other.end, &self.start) {
            (Some(e), Some(s)) => e.lt(s),
            _ => false,
        };
        !this_ends_before && !other_ends_before
    }

    /// The length of the range, where both bounds are present: `end - start`
    /// as chrono computes it.
    pub fn duration(&self) -> (r: Option<TimeSpan>)
        ensures
            r is Some <==> (self.start is Some && self.end is Some),
            r matches Some(d) ==> d.splits(
                chrono_span_nanos(self.start.unwrap()@, self.end.unwrap()@),
            ),
    {
        match (&self.start, &self.end) {
            (Some(s), Some(e)) => {
                proof {
                    use_type_invariant(s);
                    use_type_invariant(e);
                }
                Some(chrono_signed_duration(s, e))
            },
            _ => None,
        }
    }
}

impl Default for TemporalRange {
    /// The unbounded range, as `all`.
    fn default() -> (r: TemporalRange)
        ensures
            r.start is None,
            r.end is None,
    {
        TemporalRange::all()
    }
}

/// Temporal validity state of a piece of knowledge.
#[derive(Clone, Copy, Debug, PartialEq, Eq, Structural)]
pub enum TemporalValidity {
    /// Always valid (no temporal bounds).
    Eternal,
    /// Currently valid (within its one bound).
    Current,
    /// Was valid in the past (ended).
    Past,
    /// Will be valid in the future (not started).
    Future,
    /// Has both bounds and the instant lies within them.
    Bounded,
}

/// The validity state of a fact valid from `valid_from` until `valid_until`
/// (either bound may be absent), seen at the instant `at`.
pub open spec fn validity_at(
    valid_from: Option<Timestamp>,
    valid_until: Option<Timestamp>,
    at: (i64, u32),
) -> TemporalValidity {
    match (valid_from, valid_until) {
        (None, None) => TemporalValidity::Eternal,
        (Some(from), None) => if ts_le(from@, at) {
            TemporalValidity::Current
        } else {
            TemporalValidity::Future
        },
        (None, Some(until)) => if ts_le(at, until@) {
            TemporalValidity::Current
        } else {
            TemporalValidity::Past
        },
        (Some(from), Some(until)) => if ts_lt(at, from@) {
            TemporalValidity::Future
        } else if ts_lt(until@, at) {
            TemporalValidity::Past
        } else {
            TemporalValidity::Bounded
        },
    }
}

impl TemporalValidity {
    /// The state stands for knowledge that is valid.
    pub open spec fn spec_is_valid(self) -> bool {
        self is Eternal || self is Current || self is Bounded
    }

    /// The validity state for the given bounds at the current time, read
    /// from the system clock; `None` where the clock reads an instant that
    /// chrono cannot represent.
    pub fn from_bounds(valid_from: Option<Timestamp>, valid_until: Option<Timestamp>) -> (r:
        Option<TemporalValidity>)
        ensures
            r matches Some(v) ==> exists|now: Timestamp| v == validity_at(valid_from, valid_until, now@),
            exists|reading: ClockReading|
                #![trigger validity_at_reading(valid_from, valid_until, reading)]
                clock_nanos_below_second(reading) && r == validity_at_reading(
                    valid_from,
                    valid_until,
                    reading,
                ),
    {
        let reading = read_system_clock();
        let r = Self::from_bounds_at_reading(valid_from, valid_until, reading);
        proof {
            assert(clock_nanos_below_second(reading));
            assert(r == validity_at_reading(valid_from, valid_until, reading));
        }
        r
    }

    /// The validity state for the given bounds at the instant a clock
    /// reading stands for; `None` where chrono cannot represent that instant.
    pub fn from_bounds_at_reading(
        valid_from: Option<Timestamp>,
        valid_until: Option<Timestamp>,
        reading: ClockReading,
    ) -> (r: Option<TemporalValidity>)
        ensures
            r == validity_at_reading(valid_from, valid_until, reading),
            r matches Some(v) ==> exists|now: Timestamp| v == validity_at(valid_from, valid_until, now@),
    {
        match timestamp_of_reading(reading) {
            Some(now) => {
                let v = Self::from_bounds_at(valid_from, valid_until, now);
                proof {
                    let (sec, nano) = instant_at_nanos(reading_nanos(reading));
                    assert(now@ == (sec as i64, nano as u32));
                }
                Some(v)
            },
            None => None,
        }
    }

    /// The validity state for the given bounds at the instant `at_time`.
    pub fn from_bounds_at(
        valid_from: Option<Timestamp>,
        valid_until: Option<Timestamp>,
        at_time: Timestamp,
    ) -> (r: TemporalValidity)
        ensures
            r == validity_at(valid_from, valid_until, at_time@),
            r is Eternal <==> (valid_from is None && valid_until is None),
            r is Future <==> (valid_from matches Some(f) && ts_lt(at_time@, f@)),
            r is Past <==> (valid_until matches Some(u) && ts_lt(u@, at_time@) && !(
            valid_from matches Some(f) && ts_lt(at_time@, f@))),
            r is Bounded <==> (valid_from is Some && valid_until is Some && (TemporalRange {
                start: valid_from,
                end: valid_until,
            }).spec_contains(at_time@)),
            r is Current <==> ((valid_from is Some) != (valid_until is Some) && (TemporalRange {
                start: valid_from,
                end: valid_until,
            }).spec_contains(at_time@)),
    {
        proof {
            lemma_validity_states(valid_from, valid_until, at_time@);
        }
        match (valid_from, valid_until) {
            (None, None) => TemporalValidity::Eternal,
            (Some(from), None) => {
                if from.le(&at_time) {
                    TemporalValidity::Current
                } else {
                    TemporalValidity::Future
                }
            },
            (None, Some(until)) => {
                if at_time.le(&until) {
                    TemporalValidity::Current
                } else {
                    TemporalValidity::Past
                }
            },
            (Some(from), Some(until)) => {
                if at_time.lt(&from) {
                    TemporalValidity::Future
                } else if until.lt(&at_time) {
                    TemporalValidity::Past
                } else {
                    TemporalValidity::Bounded
                }
            },
        }
    }

    /// Whether this state represents currently valid knowledge.
    pub fn is_valid(&self) -> (r: bool)
        ensures
            r == self.spec_is_valid(),
    {
        match self {
            TemporalValidity::Eternal | TemporalValidity::Current | TemporalValidity::Bounded => true,
            _ => false,
        }
    }
}


/// A fact is reported valid at an instant exactly when the instant lies in
/// the range spanned by its validity bounds.
pub proof fn lemma_validity_agrees_with_range(
    valid_from: Option<Timestamp>,
    valid_until: Option<Timestamp>,
    at: (i64, u32),
)
    ensures
        validity_at(valid_from, valid_until, at).spec_is_valid() == (TemporalRange {
            start: valid_from,
            end: valid_until,
        }).spec_contains(at),
{
}

/// The validity state at an instant, by what the instant and the bounds
/// are: no bounds give `Eternal`; an instant strictly before the start gives
/// `Future`; otherwise an instant strictly after the end gives `Past`; an
/// instant within both bounds gives `Bounded`, and within the single bound a
/// fact has, `Current`.
pub proof fn lemma_validity_states(
    valid_from: Option<Timestamp>,
    valid_until: Option<Timestamp>,
    at: (i64, u32),
)
    ensures
        validity_at(valid_from, valid_until, at) is Eternal <==> (valid_from is None
            && valid_until is None),
        validity_at(valid_from, valid_until, at) is Future <==> (valid_from matches Some(f)
            && ts_lt(at, f@)),
        validity_at(valid_from, valid_until, at) is Past <==> (valid_until matches Some(u)
            && ts_lt(u@, at) && !(valid_from matches Some(f) && ts_lt(at, f@))),
        validity_at(valid_from, valid_until, at) is Bounded <==> (valid_from is Some
            && valid_until is Some && (TemporalRange {
            start: valid_from,
            end: valid_until,
        }).spec_contains(at)),
        validity_at(valid_from, valid_until, at) is Current <==> ((valid_from is Some) != (
        valid_until is Some) && (TemporalRange { start: valid_from, end: valid_until }).spec_contains(
            at,
        )),
{
}

/// Overlapping is symmetric.
pub proof fn lemma_overlaps_symmetric(a: TemporalRange, b: TemporalRange)
    ensures
        a.spec_overlaps(b) == b.spec_overlaps(a),
{
}

/// Two ranges that share an instant overlap.
pub proof fn lemma_shared_instant_overlaps(a: TemporalRange, b: TemporalRange, t: (i64, u32))
    requires
        a.spec_contains(t),
        b.spec_contains(t),
    ensures
        a.spec_overlaps(b),
{
}

/// Two overlapping ranges whose bounds are in order share an instant.
pub proof fn lemma_overlap_has_shared_instant(a: TemporalRange, b: TemporalRange)
    requires
        a.spec_ordered(),
        b.spec_ordered(),
        a.spec_overlaps(b),
    ensures
        exists|t: (i64, u32)| a.spec_contains(t) && b.spec_contains(t),
{
    let t: (i64, u32) = match (a.start, b.start) {
        (Some(sa), Some(sb)) => if ts_le(sa@, sb@) {
            sb@
        } else {
            sa@
        },
        (Some(sa), None) => sa@,
        (None, Some(sb)) => sb@,
        (None, None) => match (a.end, b.end) {
            (Some(ea), Some(eb)) => if ts_le(ea@, eb@) {
                ea@
            } else {
                eb@
            },
            (Some(ea), None) => ea@,
            (None, Some(eb)) => eb@,
            (None, None) => (0, 0),
        },
    };
    assert(a.spec_contains(t) && b.spec_contains(t));
}

/// The unbounded range contains every instant.
pub proof fn lemma_unbounded_contains_all(t: (i64, u32))
    ensures
        (TemporalRange { start: None, end: None }).spec_contains(t),
{
}

/// Bounds are inclusive: a range whose bounds are in order contains each of
/// its bounds.
pub proof fn lemma_bounds_are_inclusive(r: TemporalRange)
    requires
        r.spec_ordered(),
    ensures
        r.start matches Some(s) ==> r.spec_contains(s@),
        r.end matches Some(e) ==> r.spec_contains(e@),
{
}

/// Away from leap seconds, the length of a range is the plain difference of
/// its bounds in nanoseconds, and it is never negative when the bounds are
/// in order.
pub proof fn lemma_duration_of_ordered_bounds(start: (i64, u32), end: (i64, u32))
    requires
        start.1 < 1_000_000_000,
        end.1 < 1_000_000_000,
    ensures
        chrono_span_nanos(start, end) == (end.0 - start.0) * 1_000_000_000 + (end.1 - start.1),
        ts_le(start, end) ==> chrono_span_nanos(start, end) >= 0,
{
}

} // verus!
