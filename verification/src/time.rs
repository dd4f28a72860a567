//! Instants of the ledger and their calendar texts.
use vstd::prelude::*;
use vstd::string::*;

verus! {

/// The first second of the calendar: the year -262143 begins.
pub const FIRST_SECOND: i64 = -8334601228800;

/// The last second of the calendar: the year 262142 ends.
pub const LAST_SECOND: i64 = 8210266876799;

/// The calendar reaches an instant with these seconds since 1970 and nanoseconds within the second.
/// More nanoseconds than a second has stand for a leap second, which only a minute can end with.
pub open spec fn timestamp_in_range(secs: i64, nanos: u32) -> bool {
    &&& FIRST_SECOND <= secs <= LAST_SECOND
    &&& nanos < 1_000_000_000 || (nanos < 2_000_000_000 && secs % 60 == 59)
}

/// The first second of the year 0.
pub const FIRST_OF_FOUR_DIGITS: i64 = -62167219200;

/// The last second of the year 9999.
pub const LAST_OF_FOUR_DIGITS: i64 = 253402300799;

/// The instant that `from_str` of `chrono::DateTime<Utc>` reads in a text, as seconds since 1970 and
/// nanoseconds within the second.
pub uninterp spec fn rfc3339_read(s: Seq<char>) -> Option<(i64, u32)>;

/// What `to_rfc3339_opts(SecondsFormat::AutoSi, true)` of chrono gives for an instant.
pub uninterp spec fn rfc3339_auto(secs: i64, nanos: u32) -> Seq<char>;

/// What `to_rfc3339_opts(SecondsFormat::Secs, true)` of chrono gives for an instant.
pub uninterp spec fn rfc3339_seconds(secs: i64, nanos: u32) -> Seq<char>;

/// What `format("%Y-%m-%d")` of chrono gives for an instant.
pub uninterp spec fn calendar_date(secs: i64, nanos: u32) -> Seq<char>;

/// `chrono::DateTime::from_timestamp`: it gives an instant exactly if its calendar, which goes from
/// the year -262143 to the year 262142, reaches it.
#[verifier::external_body]
fn chrono_accepts(secs: i64, nanos: u32) -> (ok: bool)
    ensures
        ok == timestamp_in_range(secs, nanos),
{
    chrono::DateTime::from_timestamp(secs, nanos).is_some()
}

/// `chrono::DateTime::to_rfc3339_opts` with as many decimals of the second as it needs and `Z`
/// for UTC. Besides the name of the text: no other instant has it, since chrono writes the date,
/// the time of day (a leap second as second 60) and every decimal that is not zero; and a text with
/// a year of four digits reads back as its instant, since the parser of chrono takes the same parts
/// in the same order, second 60 and up to nine decimals among them.
#[verifier::external_body]
fn chrono_rfc3339_auto(secs: i64, nanos: u32) -> (out: String)
    requires
        timestamp_in_range(secs, nanos),
    ensures
        out@ == rfc3339_auto(secs, nanos),
        forall|s: i64, n: u32|
            out@ == #[trigger] rfc3339_auto(s, n) && timestamp_in_range(s, n) ==> s == secs && n
                == nanos,
        FIRST_OF_FOUR_DIGITS <= secs <= LAST_OF_FOUR_DIGITS ==> rfc3339_read(out@) == Some(
            (secs, nanos),
        ),
{
    let at = chrono::DateTime::from_timestamp(secs, nanos).unwrap();
    at.to_rfc3339_opts(chrono::SecondsFormat::AutoSi, true)
}

/// `from_str` of `chrono::DateTime<Utc>`, which takes a relaxed form of RFC 3339. Only the name of
/// the instant is claimed.
#[verifier::external_body]
fn chrono_read(s: &str) -> (at: Option<(i64, u32)>)
    ensures
        at == rfc3339_read(s@),
{
    let at = s.parse::<chrono::DateTime<chrono::Utc>>().ok()?;
    Some((at.timestamp(), at.timestamp_subsec_nanos()))
}

/// `chrono::DateTime::to_rfc3339_opts` down to whole seconds, with `Z` for UTC. Only the name of
/// the text is claimed.
#[verifier::external_body]
fn chrono_rfc3339_seconds(secs: i64, nanos: u32) -> (out: String)
    requires
        timestamp_in_range(secs, nanos),
    ensures
        out@ == rfc3339_seconds(secs, nanos),
{
    let at = chrono::DateTime::from_timestamp(secs, nanos).unwrap();
    at.to_rfc3339_opts(chrono::SecondsFormat::Secs, true)
}

/// `chrono::DateTime::format` with year, month and day. Besides the name of the text: it is never
/// shorter than `YYYY-MM-DD` and ends in `-MM-DD`, since chrono pads the year to four digits, writes
/// more where the year has more, and gives month and day two digits each.
#[verifier::external_body]
fn chrono_date(secs: i64, nanos: u32) -> (out: String)
    requires
        timestamp_in_range(secs, nanos),
    ensures
        out@ == calendar_date(secs, nanos),
        out@.len() >= 10,
        out@[out@.len() - 6] == '-' && out@[out@.len() - 3] == '-',
{
    let at = chrono::DateTime::from_timestamp(secs, nanos).unwrap();
    at.format("%Y-%m-%d").to_string()
}

/// An instant in UTC: whole seconds since 1970 and the nanoseconds within the second. Only
/// instants that have a calendar date can be made.
#[derive(Debug, Clone, Copy, PartialEq, Eq)]
pub struct DateTime {
    secs: i64,
    nanos: u32,
}

impl DateTime {
    #[verifier::type_invariant]
    spec fn inv(self) -> bool {
        timestamp_in_range(self.secs, self.nanos)
    }

    /// The whole seconds since 1970.
    pub closed spec fn seconds(self) -> i64 {
        self.secs
    }

    /// The nanoseconds within the second.
    pub closed spec fn subsecond(self) -> u32 {
        self.nanos
    }

    /// The year is one of 0 to 9999.
    pub open spec fn four_digit_year(self) -> bool {
        FIRST_OF_FOUR_DIGITS <= self.seconds() <= LAST_OF_FOUR_DIGITS
    }

    /// Whether `self` is `other` or comes before it.
    pub open spec fn not_after(self, other: DateTime) -> bool {
        self.seconds() < other.seconds() || (self.seconds() == other.seconds() && self.subsecond()
            <= other.subsecond())
    }

    /// The instant with these seconds and nanoseconds, if the calendar reaches it.
    pub fn from_timestamp(secs: i64, nanos: u32) -> (at: Option<DateTime>)
        ensures
            match at {
                Some(t) => timestamp_in_range(secs, nanos) && t.seconds() == secs && t.subsecond()
                    == nanos,
                None => !timestamp_in_range(secs, nanos),
            },
    {
        if chrono_accepts(secs, nanos) {
            Some(DateTime { secs, nanos })
        } else {
            None
        }
    }

    /// The instant that a text in a relaxed form of RFC 3339 gives, if it gives one.
    pub fn parse_rfc3339(s: &str) -> (at: Option<DateTime>)
        ensures
            match at {
                Some(t) => rfc3339_read(s@) == Some((t.seconds(), t.subsecond()))
                    && timestamp_in_range(t.seconds(), t.subsecond()),
                None => rfc3339_read(s@) matches Some(r) ==> !timestamp_in_range(r.0, r.1),
            },
    {
        match chrono_read(s) {
            Some(r) => DateTime::from_timestamp(r.0, r.1),
            None => None,
        }
    }

    /// Whether `self` is `other` or comes before it.
    pub fn at_or_before(&self, other: &DateTime) -> (b: bool)
        ensures
            b == self.not_after(*other),
    {
        self.secs < other.secs || (self.secs == other.secs && self.nanos <= other.nanos)
    }

    /// Date, time and `Z`, with as many decimals of the second as it needs. No other instant has
    /// this text, and in a year of four digits it reads back as this instant.
    pub fn to_rfc3339(&self) -> (out: String)
        ensures
            out@ == rfc3339_auto(self.seconds(), self.subsecond()),
            forall|s: i64, n: u32|
                out@ == #[trigger] rfc3339_auto(s, n) && timestamp_in_range(s, n) ==> s
                    == self.seconds() && n == self.subsecond(),
            timestamp_in_range(self.seconds(), self.subsecond()),
            self.four_digit_year() ==> rfc3339_read(out@) == Some(
                (self.seconds(), self.subsecond()),
            ),
    {
        proof {
            use_type_invariant(self);
        }
        chrono_rfc3339_auto(self.secs, self.nanos)
    }

    /// Date, time and `Z`, down to whole seconds.
    pub fn to_rfc3339_secs(&self) -> (out: String)
        ensures
            out@ == rfc3339_seconds(self.seconds(), self.subsecond()),
    {
        proof {
            use_type_invariant(self);
        }
        chrono_rfc3339_seconds(self.secs, self.nanos)
    }

    /// Year, month and day.
    pub fn date(&self) -> (out: String)
        ensures
            out@ == calendar_date(self.seconds(), self.subsecond()),
            out@.len() >= 10,
            out@[out@.len() - 6] == '-' && out@[out@.len() - 3] == '-',
    {
        proof {
            use_type_invariant(self);
        }
        chrono_date(self.secs, self.nanos)
    }
}

} // verus!
