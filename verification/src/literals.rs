//! The literals of an export.
use crate::json::{json_compact, json_get, json_get_str, Json, JsonView};
use crate::term::{
    typed, Literal, LiteralView, XSD_BOOLEAN, XSD_DATE, XSD_DATE_TIME, XSD_DECIMAL, XSD_G_YEAR,
    XSD_G_YEAR_MONTH, XSD_INTEGER, XSD_STRING,
};
use crate::text::{int_text, opt_str, signed_text, str_eq};
use crate::time::{
    calendar_date, rfc3339_auto, rfc3339_read, rfc3339_seconds, timestamp_in_range, DateTime,
};
use crate::words::lemma_datatypes_valid;
use vstd::prelude::*;
use vstd::string::*;

verus! {

/// A text.
pub open spec fn text_literal(s: Seq<char>) -> LiteralView {
    typed(s, XSD_STRING@)
}

/// An instant of the record axis: date and time, with as many decimals as it needs.
pub open spec fn instant_literal(at: DateTime) -> LiteralView {
    typed(rfc3339_auto(at.seconds(), at.subsecond()), XSD_DATE_TIME@)
}

/// A truth value.
pub open spec fn flag_literal(b: bool) -> LiteralView {
    typed(
        if b {
            "true"@
        } else {
            "false"@
        },
        XSD_BOOLEAN@,
    )
}

/// An integer.
pub open spec fn integer_literal(n: int) -> LiteralView {
    typed(int_text(n), XSD_INTEGER@)
}

/// A confidence.
pub open spec fn confidence_literal(c: Seq<char>) -> LiteralView {
    typed(c, XSD_DECIMAL@)
}

/// A precision finer than a day.
pub open spec fn finer_than_day(precision: Option<Seq<char>>) -> bool {
    precision == Some("hour"@) || precision == Some("minute"@) || precision == Some("second"@)
}

/// The year of a date: what stands in front of its month and day.
pub open spec fn year_of(date: Seq<char>) -> Seq<char> {
    date.take(date.len() - 6)
}

/// Year and month of a date: what stands in front of its day.
pub open spec fn month_of(date: Seq<char>) -> Seq<char> {
    date.take(date.len() - 3)
}

/// A time of the world, with the precision it was measured with: a year is a year, not its first
/// day.
pub open spec fn world_literal(at: DateTime, precision: Option<Seq<char>>) -> LiteralView {
    let date = calendar_date(at.seconds(), at.subsecond());
    if precision == Some("year"@) {
        typed(year_of(date), XSD_G_YEAR@)
    } else if precision == Some("month"@) {
        typed(month_of(date), XSD_G_YEAR_MONTH@)
    } else if finer_than_day(precision) {
        typed(rfc3339_seconds(at.seconds(), at.subsecond()), XSD_DATE_TIME@)
    } else {
        typed(date, XSD_DATE@)
    }
}

/// The source gives the value only relative to something, without a date of its own.
pub open spec fn relative(v: JsonView) -> bool {
    json_get(v, "relative"@) == Some(JsonView::Bool(true))
}

/// The summary of a stored value, empty where it has none.
pub open spec fn summary_text(v: JsonView) -> Seq<char> {
    match json_get_str(v, "summary"@) {
        Some(s) => s,
        None => Seq::empty(),
    }
}

/// The text of a stored value. A value comes as `{"value": …}`, as `{"summary": …}`, or bare. A
/// string is itself, everything else is JSON; where the value is null or there is none, the summary
/// stands in for it.
pub open spec fn value_text(v: JsonView) -> Seq<char> {
    match json_get(v, "value"@) {
        Some(JsonView::Text(s)) => s,
        Some(JsonView::Null) => summary_text(v),
        Some(inner) => json_compact(inner),
        None => match v {
            JsonView::Text(s) => s,
            JsonView::Null => Seq::empty(),
            _ => match json_get_str(v, "summary"@) {
                Some(s) => s,
                None => json_compact(v),
            },
        },
    }
}

/// The datatype of a stored value. A relative value is a plain text: its words are no date.
pub open spec fn value_datatype(v: JsonView, datatype: Option<Seq<char>>) -> Seq<char> {
    if relative(v) {
        XSD_STRING@
    } else if datatype == Some("number"@) {
        XSD_DECIMAL@
    } else if datatype == Some("date"@) {
        XSD_DATE@
    } else if datatype == Some("bool"@) {
        XSD_BOOLEAN@
    } else {
        XSD_STRING@
    }
}

/// A stored value as a literal of its declared type.
pub open spec fn value_literal(v: JsonView, datatype: Option<Seq<char>>) -> LiteralView {
    typed(value_text(v), value_datatype(v, datatype))
}

/// A text.
pub fn text(s: &str) -> (l: Literal)
    ensures
        l@ == text_literal(s@),
{
    proof {
        lemma_datatypes_valid();
    }
    Literal::new(s.to_string(), XSD_STRING)
}

/// An instant of the record axis. Nothing of it is lost: no other instant has this literal, and in a
/// year of four digits it reads back as that instant.
pub fn dt(at: DateTime) -> (l: Literal)
    ensures
        l@ == instant_literal(at),
        forall|other: DateTime|
            l@ == #[trigger] instant_literal(other) && timestamp_in_range(
                other.seconds(),
                other.subsecond(),
            ) ==> other.seconds() == at.seconds() && other.subsecond() == at.subsecond(),
        timestamp_in_range(at.seconds(), at.subsecond()),
        at.four_digit_year() ==> rfc3339_read(l@.value) == Some((at.seconds(), at.subsecond())),
{
    proof {
        lemma_datatypes_valid();
    }
    Literal::new(at.to_rfc3339(), XSD_DATE_TIME)
}

/// A truth value.
pub fn flag(b: bool) -> (l: Literal)
    ensures
        l@ == flag_literal(b),
{
    proof {
        lemma_datatypes_valid();
    }
    let value: String = if b {
        "true".to_string()
    } else {
        "false".to_string()
    };
    Literal::new(value, XSD_BOOLEAN)
}

/// An integer.
pub fn integer(n: i64) -> (l: Literal)
    ensures
        l@ == integer_literal(n as int),
{
    proof {
        lemma_datatypes_valid();
    }
    Literal::new(signed_text(n), XSD_INTEGER)
}

/// A confidence, given as a decimal.
pub fn confidence(c: &str) -> (l: Literal)
    ensures
        l@ == confidence_literal(c@),
{
    proof {
        lemma_datatypes_valid();
    }
    Literal::new(c.to_string(), XSD_DECIMAL)
}

fn is(given: Option<&str>, word: &str) -> (b: bool)
    ensures
        b == (opt_str(given) == Some(word@)),
{
    match given {
        Some(g) => str_eq(g, word),
        None => false,
    }
}

/// The precision, if it is finer than a day. A datatype says what a precision of days or more is;
/// a finer one has to be said besides.
pub fn sub_day<'a>(precision: Option<&'a str>) -> (p: Option<&'a str>)
    ensures
        p == (if finer_than_day(opt_str(precision)) {
            precision
        } else {
            None
        }),
{
    if is(precision, "hour") || is(precision, "minute") || is(precision, "second") {
        precision
    } else {
        None
    }
}

/// A time of the world, with the precision it was measured with.
pub fn world_time(at: DateTime, precision: Option<&str>) -> (l: Literal)
    ensures
        l@ == world_literal(at, opt_str(precision)),
{
    proof {
        lemma_datatypes_valid();
    }
    let iso: String = at.date();
    let n: usize = iso.as_str().unicode_len();
    proof {
        assert(iso@.subrange(0, n - 6) =~= year_of(iso@));
        assert(iso@.subrange(0, n - 3) =~= month_of(iso@));
    }
    if is(precision, "year") {
        Literal::new(iso.as_str().substring_char(0, n - 6).to_string(), XSD_G_YEAR)
    } else if is(precision, "month") {
        Literal::new(iso.as_str().substring_char(0, n - 3).to_string(), XSD_G_YEAR_MONTH)
    } else if sub_day(precision).is_some() {
        Literal::new(at.to_rfc3339_secs(), XSD_DATE_TIME)
    } else {
        Literal::new(iso, XSD_DATE)
    }
}

/// Whether the source gives the value only relative to something.
pub fn is_relative(v: &Json) -> (b: bool)
    ensures
        b == relative(v@),
{
    match v.get("relative") {
        Some(Json::Bool(b)) => *b,
        _ => false,
    }
}

/// A stored value as a literal of its declared type.
pub fn literal_value(v: &Json, datatype: Option<&str>) -> (l: Literal)
    ensures
        l@ == value_literal(v@, opt_str(datatype)),
{
    proof {
        lemma_datatypes_valid();
    }
    let value: String = match v.get("value") {
        Some(Json::Text(s)) => s.clone(),
        Some(Json::Null) => match v.get_str("summary") {
            Some(s) => s.to_string(),
            None => String::new(),
        },
        Some(inner) => inner.to_text(),
        None => match v {
            Json::Text(s) => s.clone(),
            Json::Null => String::new(),
            _ => match v.get_str("summary") {
                Some(s) => s.to_string(),
                None => v.to_text(),
            },
        },
    };
    let datatype: &'static str = if is_relative(v) {
        XSD_STRING
    } else if is(datatype, "number") {
        XSD_DECIMAL
    } else if is(datatype, "date") {
        XSD_DATE
    } else if is(datatype, "bool") {
        XSD_BOOLEAN
    } else {
        XSD_STRING
    };
    Literal::new(value, datatype)
}

} // verus!
