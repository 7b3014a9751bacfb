//! Points in time and spans of time.
//!
//! A point in time is a number of nanoseconds since the Unix epoch.

use vstd::prelude::*;

use crate::error::Error;

verus! {

/// The form of a point in time in the log.
pub const RFC3339_MILLISECONDS: &'static str = "[year]-[month]-[day]T[hour]:[minute]:[second].[subsecond digits:3]Z";

/// The form of the date of a request: that of RFC 822, with `GMT` for the time zone.
pub const RFC2822: &'static str = "[weekday repr:short], [day] [month repr:short] [year] [hour]:[minute]:[second] GMT";

/// The nanoseconds of a second.
pub const NANOS_PER_SEC: u32 = 1_000_000_000;

/// A span of time.
#[derive(Clone, Copy, Debug, PartialEq, Eq, Structural)]
pub struct Duration {
    secs: u64,
    nanos: u32,
}

impl View for Duration {
    type V = nat;

    /// The whole span in nanoseconds.
    closed spec fn view(&self) -> nat {
        self.secs as nat * 1_000_000_000 + self.nanos as nat
    }
}

/// What a span becomes when it has to be at least `min` and at most `max`.
pub open spec fn clamped(nanos: nat, min: nat, max: nat) -> nat {
    if nanos < min {
        min
    } else if nanos > max {
        max
    } else {
        nanos
    }
}

/// A span of time as a person reads it, such as `1s` or `1.5s`.
pub open spec fn shown(nanos: nat) -> Seq<char> {
    duration_text((nanos / 1_000_000_000) as u64, (nanos % 1_000_000_000) as u32)
}

impl Duration {
    #[verifier::type_invariant]
    spec fn split(self) -> bool {
        self.nanos < 1_000_000_000
    }

    /// A span of whole seconds.
    pub fn from_secs(secs: u64) -> (r: Duration)
        ensures
            r@ == secs * 1_000_000_000,
    {
        Duration { secs, nanos: 0 }
    }

    /// A span of milliseconds.
    pub fn from_millis(millis: u64) -> (r: Duration)
        ensures
            r@ == millis * 1_000_000,
    {
        Duration { secs: millis / 1000, nanos: (millis % 1000) as u32 * 1_000_000 }
    }

    /// A span of nanoseconds, if its seconds fit in 64 bits.
    pub fn from_nanos(nanos: u128) -> (r: Option<Duration>)
        ensures
            r is Some <==> nanos / 1_000_000_000 <= u64::MAX,
            r matches Some(span) ==> span@ == nanos,
    {
        let secs: u128 = nanos / 1_000_000_000;
        if secs > u64::MAX as u128 {
            return None;
        }
        Some(Duration { secs: secs as u64, nanos: (nanos % 1_000_000_000) as u32 })
    }

    /// The whole seconds of the span.
    pub fn as_secs(self) -> (r: u64)
        ensures
            r == self@ / 1_000_000_000,
    {
        proof {
            use_type_invariant(&self);
        }
        self.secs
    }

    /// The nanoseconds beyond the whole seconds of the span.
    pub fn subsec_nanos(self) -> (r: u32)
        ensures
            r == self@ % 1_000_000_000,
            r < 1_000_000_000,
    {
        proof {
            use_type_invariant(&self);
        }
        self.nanos
    }

    /// Whether the span is no longer than another.
    pub fn at_most(self, other: Duration) -> (r: bool)
        ensures
            r == (self@ <= other@),
    {
        proof {
            use_type_invariant(&self);
            use_type_invariant(&other);
        }
        self.secs < other.secs || (self.secs == other.secs && self.nanos <= other.nanos)
    }

    /// The shorter of two spans.
    pub fn min(self, other: Duration) -> (r: Duration)
        ensures
            r@ == (if self@ <= other@ {
                self@
            } else {
                other@
            }),
    {
        if self.at_most(other) {
            self
        } else {
            other
        }
    }

    /// Makes a span at least `min` and at most `max`.
    pub fn clamp(self, min: Duration, max: Duration) -> (r: Duration)
        requires
            min@ <= max@,
        ensures
            r@ == clamped(self@, min@, max@),
    {
        if !min.at_most(self) {
            min
        } else if !self.at_most(max) {
            max
        } else {
            self
        }
    }

    /// Twice the span, where its seconds fit in 64 bits.
    pub fn double(self) -> (r: Duration)
        requires
            2 * self@ / 1_000_000_000 <= u64::MAX,
        ensures
            r@ == 2 * self@,
    {
        proof {
            use_type_invariant(&self);
        }
        let nanos: u32 = self.nanos * 2;
        if nanos >= NANOS_PER_SEC {
            Duration { secs: self.secs * 2 + 1, nanos: nanos - NANOS_PER_SEC }
        } else {
            Duration { secs: self.secs * 2, nanos }
        }
    }

    /// The span as a person reads it, such as `1s` or `1.5s`.
    pub fn text(self) -> (r: String)
        ensures
            r@ == shown(self@),
    {
        proof {
            use_type_invariant(&self);
        }
        duration_debug(self.secs, self.nanos)
    }
}

/// The `Debug` form of the span of `secs` seconds and `nanos` nanoseconds.
pub uninterp spec fn duration_text(secs: u64, nanos: u32) -> Seq<char>;

/// The `Debug` form of `std::time::Duration`.
#[verifier::external_body]
fn duration_debug(secs: u64, nanos: u32) -> (r: String)
    requires
        nanos < 1_000_000_000,
    ensures
        r@ == duration_text(secs, nanos),
{
    format!("{:?}", std::time::Duration::new(secs, nanos))
}

/// Whether `time` can hold a point in time: its year is at least -9999 and at most 9999.
pub open spec fn is_held(nanos: int) -> bool {
    -377_705_116_800 * 1_000_000_000 <= nanos < 253_402_300_800 * 1_000_000_000
}

/// `time::OffsetDateTime::now_utc`, as the nanoseconds since the Unix epoch. Whatever the clock says,
/// `time` holds it.
#[verifier::external_body]
pub(crate) fn now() -> (r: i128)
    ensures
        is_held(r as int),
{
    time::OffsetDateTime::now_utc().unix_timestamp_nanos()
}

/// A point in time, in UTC, in the form that `description` describes in the language of the `time`
/// crate; or what is wrong with the point in time or with the description.
pub uninterp spec fn time_text(nanos: i128, description: Seq<char>) -> Result<Seq<char>, Seq<char>>;

/// Whether a description is one of those that are used here.
pub open spec fn is_known_form(description: Seq<char>) -> bool {
    description == RFC2822@ || description == RFC3339_MILLISECONDS@
}

/// `time::OffsetDateTime::format`, on a point in time and a description, with the errors as texts.
/// `time` counts the bytes of a description in 32 bits, so the description must not be long. In the
/// forms that are used here, every point in time that `time` holds has a text, which is printable ASCII,
/// and no other has one.
#[verifier::external_body]
fn format_time(nanos: i128, description: &str) -> (r: Result<String, String>)
    requires
        description@.len() <= 1000,
    ensures
        match r {
            Ok(s) => time_text(nanos, description@) == Ok::<Seq<char>, Seq<char>>(s@),
            Err(err) => time_text(nanos, description@) == Err::<Seq<char>, Seq<char>>(err@),
        },
        is_known_form(description@) ==> (r is Ok <==> is_held(nanos as int)),
        is_known_form(description@) ==> (r matches Ok(s) ==> crate::http_common::is_printable(s@)),
{
    let time = time::OffsetDateTime::from_unix_timestamp_nanos(nanos);
    let time = time.map_err(|err| err.to_string())?;
    let description = time::format_description::parse(description);
    let description = description.map_err(|err| err.to_string())?;
    time.format(&description).map_err(|err| err.to_string())
}

/// What formatting a point in time gives.
pub open spec fn formatted(nanos: i128, description: Seq<char>) -> Result<
    Seq<char>,
    Seq<Seq<char>>,
> {
    match time_text(nanos, description) {
        Ok(s) => Ok(s),
        Err(err) => Err(seq!["could not format time"@, err]),
    }
}

/// Formats a point in time.
pub(crate) fn format(nanos: i128, description: &str) -> (r: Result<String, Error>)
    requires
        description@.len() <= 1000,
    ensures
        crate::error::result_view(r) == formatted(nanos, description@),
        is_known_form(description@) ==> (r is Ok <==> is_held(nanos as int)),
        is_known_form(description@) ==> (r matches Ok(s) ==> crate::http_common::is_printable(s@)),
{
    match format_time(nanos, description) {
        Ok(s) => Ok(s),
        Err(err) => {
            let r = Error::new(err.as_str()).context("could not format time");
            assert(r@ =~= seq!["could not format time"@, err@]);
            Err(r)
        },
    }
}

/// The seconds from the Unix epoch to the point in time that an HTTP date stands for.
pub uninterp spec fn http_date(s: Seq<char>) -> Option<u64>;

/// `httpdate::parse_http_date`, as the seconds since the Unix epoch: no date is before the epoch,
/// or after the year 9999.
#[verifier::external_body]
pub(crate) fn parse_http_date(s: &str) -> (r: Option<u64>)
    ensures
        r == http_date(s@),
        r matches Some(secs) ==> secs < 253_402_300_800,
{
    let date = httpdate::parse_http_date(s).ok()?;
    date.duration_since(std::time::UNIX_EPOCH).ok().map(|since| since.as_secs())
}

/// The `Debug` form of a point in time, in the zone that is `offset` seconds ahead of UTC, where `time`
/// can hold it.
pub uninterp spec fn time_debug(nanos: i128, offset: i32) -> Option<Seq<char>>;

/// The `Debug` form of `time::OffsetDateTime`, at an offset. There is none where `time` cannot hold the
/// point in time or the offset.
#[verifier::external_body]
fn debug_time(nanos: i128, offset: i32) -> (r: Option<String>)
    ensures
        crate::text::optional(r) == time_debug(nanos, offset),
{
    let time = time::OffsetDateTime::from_unix_timestamp_nanos(nanos).ok()?;
    let offset = time::UtcOffset::from_whole_seconds(offset).ok()?;
    time.checked_to_offset(offset).map(|time| format!("{time:?}"))
}

/// The form of a point in time in the log.
pub open spec fn time_shown(nanos: i128, offset: i32) -> Seq<char> {
    match time_debug(nanos, offset) {
        Some(shown) => shown,
        None => "(out of range)"@,
    }
}

/// The form of a point in time in the log.
pub fn show_time(nanos: i128, offset: i32) -> (r: String)
    ensures
        r@ == time_shown(nanos, offset),
{
    match debug_time(nanos, offset) {
        Some(shown) => shown,
        None => "(out of range)".to_owned(),
    }
}

/// The point in time that a text in the form of RFC 3339 stands for, with the seconds that its zone is
/// ahead of UTC; or what is wrong with the text.
pub uninterp spec fn rfc3339_time(s: Seq<char>) -> Result<(i128, i32), Seq<char>>;

/// `time::OffsetDateTime::parse`, on a text in the form `Rfc3339`, with the error as a text.
#[verifier::external_body]
pub(crate) fn parse_rfc3339(s: &str) -> (r: Result<(i128, i32), String>)
    ensures
        match r {
            Ok(time) => rfc3339_time(s@) == Ok::<(i128, i32), Seq<char>>(time),
            Err(err) => rfc3339_time(s@) == Err::<(i128, i32), Seq<char>>(err@),
        },
{
    let time = time::OffsetDateTime::parse(s, &time::format_description::well_known::Rfc3339);
    let time = time.map_err(|err| err.to_string())?;
    Ok((time.unix_timestamp_nanos(), time.offset().whole_seconds()))
}

/// A span that has to lie between two others does: it stays as it is if it lies there already, and else
/// becomes the nearer one.
pub proof fn a_span_stays_within_its_limits(nanos: nat, min: nat, max: nat)
    requires
        min <= max,
    ensures
        min <= clamped(nanos, min, max) <= max,
        min <= nanos <= max ==> clamped(nanos, min, max) == nanos,
        nanos < min ==> clamped(nanos, min, max) == min,
        nanos > max ==> clamped(nanos, min, max) == max,
{
}

/// A span is shown by its whole seconds and by the nanoseconds that are left.
pub proof fn a_span_is_shown_by_its_seconds(secs: u64, nanos: u32)
    requires
        nanos < 1_000_000_000,
    ensures
        shown((secs * 1_000_000_000 + nanos) as nat) == duration_text(secs, nanos),
{
    let n = secs * 1_000_000_000 + nanos;
    assert(n / 1_000_000_000 == secs);
    assert(n % 1_000_000_000 == nanos);
}

/// A point in time has the form that it is asked for in, or the reason why it has none, and is shown as it
/// is where it can be.
pub proof fn a_time_has_the_form_that_is_asked_for(nanos: i128, offset: i32, description: Seq<char>)
    ensures
        match time_text(nanos, description) {
            Ok(s) => formatted(nanos, description) == Ok::<Seq<char>, Seq<Seq<char>>>(s),
            Err(err) => formatted(nanos, description) == Err::<Seq<char>, Seq<Seq<char>>>(
                seq!["could not format time"@, err],
            ),
        },
        match time_debug(nanos, offset) {
            Some(s) => time_shown(nanos, offset) == s,
            None => time_shown(nanos, offset) == "(out of range)"@,
        },
{
}

/// A point in time is written with its date, its time of day and its milliseconds in the one form, and with
/// its weekday, its date and its time of day in the other.
pub proof fn the_forms_are_those_of_their_standards()
    ensures
        RFC3339_MILLISECONDS@ == "[year]-[month]-[day]T[hour]:[minute]:[second].[subsecond digits:3]Z"@,
        RFC2822@
            == "[weekday repr:short], [day] [month repr:short] [year] [hour]:[minute]:[second] GMT"@,
        is_known_form(RFC3339_MILLISECONDS@),
        is_known_form(RFC2822@),
{
}

} // verus!
