//! Instants with whole-second precision, and their textual forms.

use vstd::prelude::*;

verus! {

/// Seconds from the epoch to 0000-01-02T00:00:00Z, the first instant a `Timestamp` can hold.
pub const MIN_UNIX_SECONDS: i64 = -62_167_132_800;

/// Seconds from the epoch to 9999-12-30T23:59:59Z, the last instant a `Timestamp` can hold.
pub const MAX_UNIX_SECONDS: i64 = 253_402_214_399;

/// The offset of Vietnam's civil time from UTC, in seconds.
pub const VIETNAM_OFFSET_SECONDS: i32 = 25_200;

/// The RFC 2822 text of the instant `secs` seconds after the epoch, as read on a clock
/// `offset` seconds east of UTC.
pub uninterp spec fn rfc2822_text(secs: int, offset: int) -> Seq<char>;

/// The text `YYYY-MM-DD HH:MM:SS UTC` of the instant `secs` seconds after the epoch.
pub uninterp spec fn utc_display_text(secs: int) -> Seq<char>;

/// The instant that an RFC 2822 text denotes, in seconds after the epoch, if it is well formed.
pub uninterp spec fn rfc2822_seconds(text: Seq<char>) -> Option<int>;

/// Whether `secs` lies in the range that a `Timestamp` can hold.
pub open spec fn representable(secs: int) -> bool {
    MIN_UNIX_SECONDS <= secs <= MAX_UNIX_SECONDS
}

/// An instant with whole-second precision whose year has four digits in every time zone.
#[derive(Clone, Copy, Debug, PartialEq, Eq, Structural)]
pub struct Timestamp {
    secs: i64,
}

impl View for Timestamp {
    type V = int;

    closed spec fn view(&self) -> int {
        self.secs as int
    }
}

/// `chrono::Utc::now` followed by `DateTime::timestamp`: the reading of the system clock in
/// whole seconds. Nothing is claimed of the value. `Utc::now` does not return on a machine
/// whose clock stands before 1970.
#[verifier::external_body]
fn clock_seconds() -> i64 {
    chrono::Utc::now().timestamp()
}

/// `chrono::DateTime::to_rfc2822` on the instant `secs` in the zone `offset` seconds east of
/// UTC. The result is a function of the two numbers; the bounds keep the local year within
/// 0..=9999, outside of which the call panics, and the offset within a day, as
/// `FixedOffset::east_opt` asks.
#[verifier::external_body]
fn format_rfc2822(secs: i64, offset: i32) -> (out: String)
    requires
        -86_400 < offset < 86_400,
        -62_167_219_200 <= secs + offset <= 253_402_300_799,
    ensures
        out@ == rfc2822_text(secs as int, offset as int),
{
    let zone = chrono::FixedOffset::east_opt(offset).unwrap();
    chrono::DateTime::from_timestamp(secs, 0).unwrap().with_timezone(&zone).to_rfc2822()
}

/// `ToString::to_string` on a `chrono::DateTime<Utc>` at the instant `secs`. The result is a
/// function of the number; the bounds keep `DateTime::from_timestamp` within its range.
#[verifier::external_body]
fn format_utc_display(secs: i64) -> (out: String)
    requires
        -62_167_219_200 <= secs <= 253_402_300_799,
    ensures
        out@ == utc_display_text(secs as int),
{
    chrono::DateTime::from_timestamp(secs, 0).unwrap().to_string()
}

/// `chrono::DateTime::parse_from_rfc2822` followed by `DateTime::timestamp`: the instant that
/// the text denotes, or `None` where the parser rejects it. The result is a function of the
/// text.
#[verifier::external_body]
fn parse_rfc2822_seconds(text: &str) -> (out: Option<i64>)
    ensures
        match out {
            Some(secs) => rfc2822_seconds(text@) == Some(secs as int),
            None => rfc2822_seconds(text@).is_none(),
        },
{
    chrono::DateTime::parse_from_rfc2822(text).ok().map(|parsed| parsed.timestamp())
}

impl Timestamp {
    #[verifier::type_invariant]
    spec fn in_range(self) -> bool {
        representable(self.secs as int)
    }

    /// The instant `secs` seconds after the epoch, if it is representable.
    pub fn from_unix(secs: i64) -> (out: Option<Timestamp>)
        ensures
            out.is_some() <==> representable(secs as int),
            out matches Some(t) ==> t@ == secs,
    {
        if MIN_UNIX_SECONDS <= secs && secs <= MAX_UNIX_SECONDS {
            Some(Timestamp { secs })
        } else {
            None
        }
    }

    /// The instant nearest to `secs` seconds after the epoch that is representable.
    pub fn saturating_from_unix(secs: i64) -> (out: Timestamp)
        ensures
            representable(out@),
            representable(secs as int) ==> out@ == secs,
            secs < MIN_UNIX_SECONDS ==> out@ == MIN_UNIX_SECONDS,
            secs > MAX_UNIX_SECONDS ==> out@ == MAX_UNIX_SECONDS,
    {
        if secs < MIN_UNIX_SECONDS {
            Timestamp { secs: MIN_UNIX_SECONDS }
        } else if secs > MAX_UNIX_SECONDS {
            Timestamp { secs: MAX_UNIX_SECONDS }
        } else {
            Timestamp { secs }
        }
    }

    /// The reading of the system clock, held to the representable range.
    pub fn now() -> (out: Timestamp)
        ensures
            representable(out@),
    {
        Timestamp::saturating_from_unix(clock_seconds())
    }

    /// Seconds after the epoch.
    pub fn unix(&self) -> (secs: i64)
        ensures
            secs == self@,
            representable(secs as int),
    {
        proof {
            use_type_invariant(self);
        }
        self.secs
    }

    /// The RFC 2822 text of this instant in UTC.
    pub fn to_rfc2822(&self) -> (out: String)
        ensures
            out@ == rfc2822_text(self@, 0),
    {
        proof {
            use_type_invariant(self);
        }
        format_rfc2822(self.secs, 0)
    }

    /// The RFC 2822 text of this instant in Vietnam's civil time.
    pub fn to_rfc2822_vietnam(&self) -> (out: String)
        ensures
            out@ == rfc2822_text(self@, VIETNAM_OFFSET_SECONDS as int),
    {
        proof {
            use_type_invariant(self);
        }
        format_rfc2822(self.secs, VIETNAM_OFFSET_SECONDS)
    }

    /// The text `YYYY-MM-DD HH:MM:SS UTC` of this instant.
    pub fn to_utc_display(&self) -> (out: String)
        ensures
            out@ == utc_display_text(self@),
    {
        proof {
            use_type_invariant(self);
        }
        format_utc_display(self.secs)
    }

    /// The instant that an RFC 2822 text denotes, if the text is well formed and the instant
    /// representable.
    pub fn parse_rfc2822(text: &str) -> (out: Option<Timestamp>)
        ensures
            seconds_of(out) == representable_part(rfc2822_seconds(text@)),
    {
        Timestamp::from_parsed(parse_rfc2822_seconds(text))
    }

    /// The timestamp for the outcome of reading a date text: present when a number of seconds
    /// was read and is representable.
    pub fn from_parsed(seconds: Option<i64>) -> (out: Option<Timestamp>)
        ensures
            seconds_of(out) == representable_part(
                match seconds {
                    Some(s) => Some(s as int),
                    None => None,
                },
            ),
    {
        match seconds {
            Some(secs) => Timestamp::from_unix(secs),
            None => None,
        }
    }

    /// Two timestamps of the same instant are the same value.
    pub proof fn law_same_instant_same_timestamp(a: Timestamp, b: Timestamp)
        requires
            a@ == b@,
        ensures
            a == b,
    {
    }
}

/// The instant of an optional timestamp, in seconds after the epoch.
pub open spec fn seconds_of(t: Option<Timestamp>) -> Option<int> {
    match t {
        Some(t) => Some(t@),
        None => None,
    }
}

/// `seconds` where it is present and representable.
pub open spec fn representable_part(seconds: Option<int>) -> Option<int> {
    match seconds {
        Some(secs) => if representable(secs) {
            Some(secs)
        } else {
            None
        },
        None => None,
    }
}

/// The current time in Vietnam as RFC 2822 text.
pub fn generate_time() -> (out: String)
    ensures
        exists|secs: int| representable(secs) && out@ == rfc2822_text(secs, VIETNAM_OFFSET_SECONDS as int),
{
    let now = Timestamp::now();
    now.to_rfc2822_vietnam()
}

/// The current time in seconds after the epoch.
pub fn generate_unix_timestamp() -> (secs: i64)
    ensures
        representable(secs as int),
{
    Timestamp::now().unix()
}

} // verus!
