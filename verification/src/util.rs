//! Date-time values and the calls into the `time` crate that produce and print them.

use vstd::prelude::*;
use vstd::string::*;

verus! {

/// Earliest instant the `time` crate can represent (default features): -9999-01-01 00:00:00 UTC.
pub const MIN_UNIX_SECONDS: i64 = -377_705_116_800i64;

/// Latest whole second the `time` crate can represent (default features): 9999-12-31 23:59:59 UTC.
pub const MAX_UNIX_SECONDS: i64 = 253_402_300_799i64;

/// Nanoseconds in one second; the sub-second part of a date-time is below it.
pub const NANOS_PER_SECOND: u32 = 1_000_000_000u32;

/// Seconds in one week (`time::Duration::weeks(1)`).
pub const SECONDS_PER_WEEK: i64 = 604_800i64;

/// True when `unix_seconds` names an instant that the `time` crate can represent.
pub open spec fn representable(unix_seconds: int) -> bool {
    MIN_UNIX_SECONDS <= unix_seconds <= MAX_UNIX_SECONDS
}

/// A date-time without offset that is read as UTC wall-clock time: the whole seconds since the
/// Unix epoch (rounded down) and the nanoseconds past that second.
#[derive(Clone, Copy, Debug, PartialEq, Eq, Structural)]
pub struct DateTime {
    pub unix_seconds: i64,
    pub nanosecond: u32,
}

/// `a` is strictly earlier than `b`: by the second, then by the nanosecond, as the `time`
/// crate orders its date-times.
pub open spec fn earlier(a: DateTime, b: DateTime) -> bool {
    a.unix_seconds < b.unix_seconds || (a.unix_seconds == b.unix_seconds && a.nanosecond
        < b.nanosecond)
}

/// Law: the seconds decide the order of two date-times; only within the same second does the
/// nanosecond decide.
pub proof fn lemma_earlier_seconds_first(a: DateTime, b: DateTime)
    ensures
        a.unix_seconds < b.unix_seconds ==> earlier(a, b),
        a.unix_seconds > b.unix_seconds ==> !earlier(a, b),
        a.unix_seconds == b.unix_seconds ==> (earlier(a, b) <==> a.nanosecond < b.nanosecond),
{
}

/// Law: for date-times whose nanosecond is below one second, `earlier` is the order of the
/// instants they name, counted in nanoseconds since the Unix epoch; so it is irreflexive,
/// transitive and total.
pub proof fn lemma_earlier_is_chronological(a: DateTime, b: DateTime, c: DateTime)
    requires
        a.nanosecond < NANOS_PER_SECOND,
        b.nanosecond < NANOS_PER_SECOND,
        c.nanosecond < NANOS_PER_SECOND,
    ensures
        earlier(a, b) <==> a.unix_seconds * 1_000_000_000 + a.nanosecond < b.unix_seconds
            * 1_000_000_000 + b.nanosecond,
        !earlier(a, a),
        earlier(a, b) && earlier(b, c) ==> earlier(a, c),
        earlier(a, b) || earlier(b, a) || a == b,
{
}

impl DateTime {
    /// The value lies in the range of the `time` crate's date-time types.
    pub open spec fn wf(self) -> bool {
        representable(self.unix_seconds as int) && self.nanosecond < NANOS_PER_SECOND
    }

    /// Whether the value lies in the range of the `time` crate's date-time types.
    pub fn in_range(&self) -> (r: bool)
        ensures
            r == self.wf(),
    {
        MIN_UNIX_SECONDS <= self.unix_seconds && self.unix_seconds <= MAX_UNIX_SECONDS
            && self.nanosecond < NANOS_PER_SECOND
    }

    /// `self` is strictly earlier than `other`.
    pub fn is_before(&self, other: &DateTime) -> (r: bool)
        ensures
            r == earlier(*self, *other),
            self.unix_seconds < other.unix_seconds ==> r,
            self.unix_seconds > other.unix_seconds ==> !r,
            self.unix_seconds == other.unix_seconds ==> (r <==> self.nanosecond < other.nanosecond),
    {
        self.unix_seconds < other.unix_seconds || (self.unix_seconds == other.unix_seconds
            && self.nanosecond < other.nanosecond)
    }
}

/// Why a Unix timestamp could not be turned into a date-time.
#[derive(Clone, Copy, Debug, PartialEq, Eq, Structural)]
pub enum TimeError {
    /// The timestamp lies outside the range the `time` crate can represent.
    ComponentRange,
}

#[verifier::external_type_specification]
#[verifier::external_body]
pub struct ExComponentRange(time::error::ComponentRange);

/// Calls `time::OffsetDateTime::from_unix_timestamp`. Its source checks the timestamp against
/// the range from `Date::MIN` at midnight to `Date::MAX` at `Time::MAX` (both UTC) and fails
/// exactly outside it; on success the value it builds has that same Unix timestamp, which is
/// what is handed back here.
#[verifier::external_body]
fn offset_date_time_from_unix_timestamp(timestamp: i64) -> (r: Result<i64, time::error::ComponentRange>)
    ensures
        r is Ok <==> representable(timestamp as int),
        r matches Ok(s) ==> s == timestamp,
{
    match time::OffsetDateTime::from_unix_timestamp(timestamp) {
        Ok(dt) => Ok(dt.unix_timestamp()),
        Err(e) => Err(e),
    }
}

/// Calls `time::OffsetDateTime::now_utc` and hands back its Unix timestamp and its nanosecond.
/// The clock decides the value; all that is stated is that it is a value an `OffsetDateTime`
/// can hold.
#[verifier::external_body]
fn offset_date_time_now_utc() -> (r: (i64, u32))
    ensures
        representable(r.0 as int),
        r.1 < NANOS_PER_SECOND,
{
    let now = time::OffsetDateTime::now_utc();
    (now.unix_timestamp(), now.nanosecond())
}

/// The text that `time::PrimitiveDateTime`'s `Display` prints for the UTC wall-clock time of a
/// representable Unix timestamp with the given nanosecond (such as `2019-01-01 0:00:00.0`).
pub uninterp spec fn date_time_text(unix_seconds: int, nanosecond: int) -> Seq<char>;

/// Calls `Display::to_string` on the `time::PrimitiveDateTime` made, as `time_parse_unix` makes
/// it, from the date and time of `time::OffsetDateTime::from_unix_timestamp(unix_seconds)`,
/// with its nanosecond replaced by `nanosecond`. The text is named by `date_time_text`; nothing
/// more is stated of it.
#[verifier::external_body]
fn primitive_date_time_to_string(unix_seconds: i64, nanosecond: u32) -> (r: String)
    requires
        representable(unix_seconds as int),
        nanosecond < NANOS_PER_SECOND,
    ensures
        r@ == date_time_text(unix_seconds as int, nanosecond as int),
{
    match time::OffsetDateTime::from_unix_timestamp(unix_seconds) {
        Ok(dt) => match time::PrimitiveDateTime::new(dt.date(), dt.time()).replace_nanosecond(nanosecond) {
            Ok(pdt) => pdt.to_string(),
            Err(_) => String::new(),
        },
        Err(_) => String::new(),
    }
}

/// Parses a Unix timestamp into a date-time read as UTC.
/// Fails with `ComponentRange` exactly when the timestamp is outside the range of the `time` crate.
pub fn time_parse_unix(unix_ts: i64) -> (r: Result<DateTime, TimeError>)
    ensures
        r is Ok <==> representable(unix_ts as int),
        r matches Ok(dt) ==> dt.unix_seconds == unix_ts && dt.nanosecond == 0 && dt.wf(),
        r matches Err(e) ==> e == TimeError::ComponentRange,
{
    match offset_date_time_from_unix_timestamp(unix_ts) {
        Ok(seconds) => Ok(DateTime { unix_seconds: seconds, nanosecond: 0 }),
        Err(_) => Err(TimeError::ComponentRange),
    }
}

/// The current UTC date-time, read from the clock.
pub fn time_now() -> (r: DateTime)
    ensures
        r.wf(),
{
    let (unix_seconds, nanosecond) = offset_date_time_now_utc();
    DateTime { unix_seconds, nanosecond }
}

/// The date-time one week after `now`.
pub fn add_week(now: DateTime) -> (r: DateTime)
    requires
        now.wf(),
    ensures
        r.unix_seconds == now.unix_seconds + SECONDS_PER_WEEK,
        r.nanosecond == now.nanosecond,
{
    DateTime { unix_seconds: now.unix_seconds + SECONDS_PER_WEEK, nanosecond: now.nanosecond }
}

/// The current UTC date-time plus one week. The clock decides the value: whatever it read,
/// the result lies one week after a representable instant.
pub fn time_now_add_week() -> (r: DateTime)
    ensures
        exists|now: DateTime|
            #![trigger now.wf()]
            now.wf() && r.unix_seconds == now.unix_seconds + SECONDS_PER_WEEK && r.nanosecond
                == now.nanosecond,
{
    let now = time_now();
    let r = add_week(now);
    assert(now.wf());
    r
}

/// The text the `time` crate prints for a representable date-time.
pub fn date_time_to_string(dt: &DateTime) -> (r: String)
    requires
        dt.wf(),
    ensures
        r@ == date_time_text(dt.unix_seconds as int, dt.nanosecond as int),
{
    primitive_date_time_to_string(dt.unix_seconds, dt.nanosecond)
}

/// `needle` occurs in `hay` starting at position `i`.
pub open spec fn occurs_at(hay: Seq<char>, needle: Seq<char>, i: int) -> bool {
    &&& 0 <= i
    &&& i + needle.len() <= hay.len()
    &&& hay.subrange(i, i + needle.len()) == needle
}

/// `needle` occurs somewhere in `hay`.
pub open spec fn contains_chars(hay: Seq<char>, needle: Seq<char>) -> bool {
    exists|i: int| occurs_at(hay, needle, i)
}

/// The characters of `s`, in order.
pub fn chars_of(s: &str) -> (r: Vec<char>)
    ensures
        r@ == s@,
{
    let n = s.unicode_len();
    let mut r: Vec<char> = Vec::new();
    for i in 0..n
        invariant
            n == s@.len(),
            r@ == s@.take(i as int),
    {
        let c = s.get_char(i);
        r.push(c);
        assert(r@ =~= s@.take(i + 1));
    }
    assert(s@.take(n as int) =~= s@);
    r
}

/// `needle` occurs in `hay` at position `i`, checked character by character.
fn occurs_at_exec(hay: &Vec<char>, needle: &Vec<char>, i: usize) -> (r: bool)
    requires
        i + needle@.len() <= hay@.len(),
    ensures
        r == occurs_at(hay@, needle@, i as int),
{
    let m = needle.len();
    assert(hay@.len() == hay.len());
    for j in 0..m
        invariant
            m == needle@.len(),
            i + m <= hay@.len(),
            hay@.len() <= usize::MAX,
            forall|k: int| 0 <= k < j ==> hay@[i + k] == needle@[k],
    {
        if hay[i + j] != needle[j] {
            assert(hay@.subrange(i as int, i + m)[j as int] != needle@[j as int]);
            return false;
        }
    }
    assert(hay@.subrange(i as int, i + m) =~= needle@);
    true
}

/// Whether `needle` occurs in `hay`.
pub fn contains_text(hay: &str, needle: &str) -> (r: bool)
    ensures
        r == contains_chars(hay@, needle@),
{
    let h = chars_of(hay);
    let nd = chars_of(needle);
    if nd.len() > h.len() {
        assert forall|i: int| !occurs_at(hay@, needle@, i) by {}
        return false;
    }
    let last = h.len() - nd.len();
    let mut i: usize = 0;
    loop
        invariant
            h@ == hay@,
            nd@ == needle@,
            last == h@.len() - nd@.len(),
            i <= last,
            forall|k: int| 0 <= k < i ==> !occurs_at(hay@, needle@, k),
        decreases last - i,
    {
        if occurs_at_exec(&h, &nd, i) {
            assert(occurs_at(hay@, needle@, i as int));
            return true;
        }
        if i == last {
            assert forall|k: int| !occurs_at(hay@, needle@, k) by {
                if 0 <= k <= i {
                }
            }
            return false;
        }
        i = i + 1;
    }
}

} // verus!
